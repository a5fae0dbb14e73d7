//! Errors of the library and the platform's numeric error codes.
use vstd::prelude::*;
use vstd::string::StringExecFns;
use reqwest::Error as ReqwestError;
use serde_json::Error as SerdeJsonError;

verus! {

#[verifier::external_type_specification]
#[verifier::external_body]
pub struct ExUnpadError(aes::cipher::block_padding::UnpadError);

#[verifier::external_type_specification]
#[verifier::external_body]
pub struct ExInvalidLength(aes::cipher::InvalidLength);

#[verifier::external_type_specification]
#[verifier::external_body]
pub struct ExDecodeError(base64::DecodeError);

#[verifier::external_type_specification]
#[verifier::external_body]
pub struct ExReqwestError(ReqwestError);

#[verifier::external_type_specification]
#[verifier::external_body]
pub struct ExSerdeJsonError(SerdeJsonError);

/// Everything that can go wrong when talking to the platform: the errors that
/// its error codes stand for, and those of decoding, decryption and transport.
#[derive(Debug)]
#[non_exhaustive]
pub enum Error {
    System(String),
    InvalidCredential(String),
    InvalidGrantType(String),
    InvalidAppId(String),
    InvalidCode(String),
    InvalidParameter(String),
    InvalidSecret(String),
    ForbiddenIp(String),
    CodeBlocked(String),
    SecretFrozen(String),
    MissingAccessToken(String),
    MissingAppId(String),
    MissingSecret(String),
    MissingCode(String),
    RequiredPostMethod(String),
    DailyRequestLimitExceeded(String),
    RateLimitExceeded(String),
    ForbiddenToken(String),
    AccountFrozen(String),
    ThirdPartyToken(String),
    SessionKeyNotExistedOrExpired(String),
    InvalidSignatureMethod(String),
    InvalidSignature(String),
    ConfirmRequired(String),
    RequestDeniedOneDay(String),
    RequestDeniedOneHour(String),
    Unpad(aes::cipher::block_padding::UnpadError),
    AesInvalidLength(aes::cipher::InvalidLength),
    Base64Decode(base64::DecodeError),
    Reqwest(ReqwestError),
    SerdeJson(SerdeJsonError),
    InternalServer(String),
}

/// `prefix` followed by `message`.
fn labelled(prefix: &str, message: &str) -> (r: String)
    ensures
        r@ == prefix@ + message@,
{
    String::from_str(prefix).concat(message)
}

impl Error {
    /// The message carried by a variant that holds text, if this one does.
    pub open spec fn text(&self) -> Option<Seq<char>> {
        match self {
            Error::System(m) => Some(m@),
            Error::InvalidCredential(m) => Some(m@),
            Error::InvalidGrantType(m) => Some(m@),
            Error::InvalidAppId(m) => Some(m@),
            Error::InvalidCode(m) => Some(m@),
            Error::InvalidParameter(m) => Some(m@),
            Error::InvalidSecret(m) => Some(m@),
            Error::ForbiddenIp(m) => Some(m@),
            Error::CodeBlocked(m) => Some(m@),
            Error::SecretFrozen(m) => Some(m@),
            Error::MissingAccessToken(m) => Some(m@),
            Error::MissingAppId(m) => Some(m@),
            Error::MissingSecret(m) => Some(m@),
            Error::MissingCode(m) => Some(m@),
            Error::RequiredPostMethod(m) => Some(m@),
            Error::DailyRequestLimitExceeded(m) => Some(m@),
            Error::RateLimitExceeded(m) => Some(m@),
            Error::ForbiddenToken(m) => Some(m@),
            Error::AccountFrozen(m) => Some(m@),
            Error::ThirdPartyToken(m) => Some(m@),
            Error::SessionKeyNotExistedOrExpired(m) => Some(m@),
            Error::InvalidSignatureMethod(m) => Some(m@),
            Error::InvalidSignature(m) => Some(m@),
            Error::ConfirmRequired(m) => Some(m@),
            Error::RequestDeniedOneDay(m) => Some(m@),
            Error::RequestDeniedOneHour(m) => Some(m@),
            Error::InternalServer(m) => Some(m@),
            _ => None,
        }
    }

    /// A human-readable description: a short name of the kind of error, a
    /// colon, and the message or the underlying error.
    pub fn to_string(&self) -> (r: String)
        ensures
            self.text() is Some ==> r@.len() >= self.text()->0.len() && r@.subrange(
                r@.len() - self.text()->0.len(),
                r@.len() as int,
            ) == self.text()->0,
            self is InvalidParameter ==> r@ == "invalid parameter: "@ + self.text()->0,
    {
        match self {
            Error::System(m) => labelled("system error: ", m.as_str()),
            Error::InvalidCredential(m) => labelled("invalid credential: ", m.as_str()),
            Error::InvalidGrantType(m) => labelled("invalid grant type: ", m.as_str()),
            Error::InvalidAppId(m) => labelled("invalid app id: ", m.as_str()),
            Error::InvalidCode(m) => labelled("invalid code: ", m.as_str()),
            Error::InvalidParameter(m) => labelled("invalid parameter: ", m.as_str()),
            Error::InvalidSecret(m) => labelled("invalid secret: ", m.as_str()),
            Error::ForbiddenIp(m) => labelled("forbidden ip: ", m.as_str()),
            Error::CodeBlocked(m) => labelled("code blocked: ", m.as_str()),
            Error::SecretFrozen(m) => labelled("secret frozen: ", m.as_str()),
            Error::MissingAccessToken(m) => labelled("missing access token: ", m.as_str()),
            Error::MissingAppId(m) => labelled("missing app id: ", m.as_str()),
            Error::MissingSecret(m) => labelled("missing secret: ", m.as_str()),
            Error::MissingCode(m) => labelled("missing code: ", m.as_str()),
            Error::RequiredPostMethod(m) => labelled("required post method: ", m.as_str()),
            Error::DailyRequestLimitExceeded(m) => labelled(
                "daily request limit exceeded: ",
                m.as_str(),
            ),
            Error::RateLimitExceeded(m) => labelled("rate limit exceeded: ", m.as_str()),
            Error::ForbiddenToken(m) => labelled("forbidden token: ", m.as_str()),
            Error::AccountFrozen(m) => labelled("account frozen: ", m.as_str()),
            Error::ThirdPartyToken(m) => labelled("third party token: ", m.as_str()),
            Error::SessionKeyNotExistedOrExpired(m) => labelled(
                "session key not existed or expired: ",
                m.as_str(),
            ),
            Error::InvalidSignatureMethod(m) => labelled(
                "invalid signature method: ",
                m.as_str(),
            ),
            Error::InvalidSignature(m) => labelled("invalid signature: ", m.as_str()),
            Error::ConfirmRequired(m) => labelled("confirm required: ", m.as_str()),
            Error::RequestDeniedOneDay(m) => labelled("request denied one day: ", m.as_str()),
            Error::RequestDeniedOneHour(m) => labelled("request denied one hour: ", m.as_str()),
            Error::Unpad(e) => labelled("unpad error: ", e.to_string().as_str()),
            Error::AesInvalidLength(e) => labelled("aes invalid length: ", e.to_string().as_str()),
            Error::Base64Decode(e) => labelled("base64 decode error: ", e.to_string().as_str()),
            Error::Reqwest(e) => labelled("reqwest: ", e.to_string().as_str()),
            Error::SerdeJson(e) => labelled("json error: ", e.to_string().as_str()),
            Error::InternalServer(m) => labelled("internal error: ", m.as_str()),
        }
    }
}

/// The error codes that the platform answers with, each standing for one
/// variant of [`Error`].
#[derive(Debug, Clone, Copy, PartialEq, Eq, Structural)]
pub enum ErrorCode {
    System,
    InvalidCredential,
    InvalidGrantType,
    InvalidAppId,
    InvalidCode,
    InvalidParameter,
    InvalidSecret,
    ForbiddenIp,
    CodeBlocked,
    SecretFrozen,
    MissingAccessToken,
    MissingAppId,
    MissingSecret,
    MissingCode,
    RequiredPostMethod,
    DailyRequestLimitExceeded,
    RateLimitExceeded,
    ForbiddenToken,
    AccountFrozen,
    ThirdPartyToken,
    SessionKeyNotExistedOrExpired,
    InvalidSignatureMethod,
    InvalidSignature,
    ConfirmRequired,
    RequestDeniedOneDay,
    RequestDeniedOneHour,
}

/// The number that the platform uses for `code`.
pub open spec fn code_value(code: ErrorCode) -> int {
    match code {
        ErrorCode::System => -1,
        ErrorCode::InvalidCredential => 40001,
        ErrorCode::InvalidGrantType => 40002,
        ErrorCode::InvalidAppId => 40013,
        ErrorCode::InvalidCode => 40029,
        ErrorCode::InvalidParameter => 40097,
        ErrorCode::InvalidSecret => 40125,
        ErrorCode::ForbiddenIp => 40164,
        ErrorCode::CodeBlocked => 40226,
        ErrorCode::SecretFrozen => 40243,
        ErrorCode::MissingAccessToken => 41001,
        ErrorCode::MissingAppId => 41002,
        ErrorCode::MissingSecret => 41004,
        ErrorCode::MissingCode => 41008,
        ErrorCode::RequiredPostMethod => 43002,
        ErrorCode::DailyRequestLimitExceeded => 45009,
        ErrorCode::RateLimitExceeded => 45011,
        ErrorCode::ForbiddenToken => 50004,
        ErrorCode::AccountFrozen => 50007,
        ErrorCode::ThirdPartyToken => 61024,
        ErrorCode::SessionKeyNotExistedOrExpired => 87007,
        ErrorCode::InvalidSignatureMethod => 87008,
        ErrorCode::InvalidSignature => 87009,
        ErrorCode::ConfirmRequired => 89503,
        ErrorCode::RequestDeniedOneDay => 89506,
        ErrorCode::RequestDeniedOneHour => 89507,
    }
}

/// The error that `code` stands for, carrying `message`.
pub open spec fn error_for(code: ErrorCode, message: String) -> Error {
    match code {
        ErrorCode::System => Error::System(message),
        ErrorCode::InvalidCredential => Error::InvalidCredential(message),
        ErrorCode::InvalidGrantType => Error::InvalidGrantType(message),
        ErrorCode::InvalidAppId => Error::InvalidAppId(message),
        ErrorCode::InvalidCode => Error::InvalidCode(message),
        ErrorCode::InvalidParameter => Error::InvalidParameter(message),
        ErrorCode::InvalidSecret => Error::InvalidSecret(message),
        ErrorCode::ForbiddenIp => Error::ForbiddenIp(message),
        ErrorCode::CodeBlocked => Error::CodeBlocked(message),
        ErrorCode::SecretFrozen => Error::SecretFrozen(message),
        ErrorCode::MissingAccessToken => Error::MissingAccessToken(message),
        ErrorCode::MissingAppId => Error::MissingAppId(message),
        ErrorCode::MissingSecret => Error::MissingSecret(message),
        ErrorCode::MissingCode => Error::MissingCode(message),
        ErrorCode::RequiredPostMethod => Error::RequiredPostMethod(message),
        ErrorCode::DailyRequestLimitExceeded => Error::DailyRequestLimitExceeded(message),
        ErrorCode::RateLimitExceeded => Error::RateLimitExceeded(message),
        ErrorCode::ForbiddenToken => Error::ForbiddenToken(message),
        ErrorCode::AccountFrozen => Error::AccountFrozen(message),
        ErrorCode::ThirdPartyToken => Error::ThirdPartyToken(message),
        ErrorCode::SessionKeyNotExistedOrExpired => Error::SessionKeyNotExistedOrExpired(message),
        ErrorCode::InvalidSignatureMethod => Error::InvalidSignatureMethod(message),
        ErrorCode::InvalidSignature => Error::InvalidSignature(message),
        ErrorCode::ConfirmRequired => Error::ConfirmRequired(message),
        ErrorCode::RequestDeniedOneDay => Error::RequestDeniedOneDay(message),
        ErrorCode::RequestDeniedOneHour => Error::RequestDeniedOneHour(message),
    }
}

/// What `code` means, in the platform's own words.
pub open spec fn code_meaning(code: ErrorCode) -> Seq<char> {
    match code {
        ErrorCode::System => "系统繁忙，此时请开发者稍候再试"@,
        ErrorCode::InvalidCredential => "获取 access_token 时 AppSecret 错误，或者 access_token 无效。请开发者认真比对 AppSecret 的正确性，或查看是否正在为恰当的公众号调用接口"@,
        ErrorCode::InvalidGrantType => "不合法的凭证类型"@,
        ErrorCode::InvalidAppId => "不合法的 AppID ，请开发者检查 AppID 的正确性，避免异常字符，注意大小写"@,
        ErrorCode::InvalidCode => "code 无效"@,
        ErrorCode::InvalidParameter => "参数错误"@,
        ErrorCode::InvalidSecret => "无效的appsecret，请检查appsecret的正确性"@,
        ErrorCode::ForbiddenIp => "将ip添加到ip白名单列表即可"@,
        ErrorCode::CodeBlocked => "高风险等级用户，小程序登录拦截 。风险等级详见用户安全解方案"@,
        ErrorCode::SecretFrozen => "AppSecret已被冻结，请登录小程序平台解冻后再次调用"@,
        ErrorCode::MissingAccessToken => "缺少 access token 参数"@,
        ErrorCode::MissingAppId => "缺少 appid 参数"@,
        ErrorCode::MissingSecret => "缺少 secret 参数"@,
        ErrorCode::MissingCode => "MissingCode"@,
        ErrorCode::RequiredPostMethod => "需要 POST 请求"@,
        ErrorCode::DailyRequestLimitExceeded => "调用超过天级别频率限制。可调用clear_quota接口恢复调用额度。"@,
        ErrorCode::RateLimitExceeded => "API 调用太频繁，请稍候再试"@,
        ErrorCode::ForbiddenToken => "禁止使用 token 接口"@,
        ErrorCode::AccountFrozen => "账号已冻结"@,
        ErrorCode::ThirdPartyToken => "第三方平台 API 需要使用第三方平台专用 token"@,
        ErrorCode::SessionKeyNotExistedOrExpired => "session_key is not existed or expired"@,
        ErrorCode::InvalidSignatureMethod => "invalid sig_method"@,
        ErrorCode::InvalidSignature => "无效的签名"@,
        ErrorCode::ConfirmRequired => "此次调用需要管理员确认，请耐心等候"@,
        ErrorCode::RequestDeniedOneDay => "该IP调用求请求已被公众号管理员拒绝，请24小时后再试，建议调用前与管理员沟通确认"@,
        ErrorCode::RequestDeniedOneHour => "该IP调用求请求已被公众号管理员拒绝，请1小时后再试，建议调用前与管理员沟通确认"@,
    }
}

impl ErrorCode {
    /// The number that the platform uses for this code.
    pub fn code(&self) -> (r: i32)
        ensures
            r == code_value(*self),
    {
        match self {
            ErrorCode::System => -1,
            ErrorCode::InvalidCredential => 40001,
            ErrorCode::InvalidGrantType => 40002,
            ErrorCode::InvalidAppId => 40013,
            ErrorCode::InvalidCode => 40029,
            ErrorCode::InvalidParameter => 40097,
            ErrorCode::InvalidSecret => 40125,
            ErrorCode::ForbiddenIp => 40164,
            ErrorCode::CodeBlocked => 40226,
            ErrorCode::SecretFrozen => 40243,
            ErrorCode::MissingAccessToken => 41001,
            ErrorCode::MissingAppId => 41002,
            ErrorCode::MissingSecret => 41004,
            ErrorCode::MissingCode => 41008,
            ErrorCode::RequiredPostMethod => 43002,
            ErrorCode::DailyRequestLimitExceeded => 45009,
            ErrorCode::RateLimitExceeded => 45011,
            ErrorCode::ForbiddenToken => 50004,
            ErrorCode::AccountFrozen => 50007,
            ErrorCode::ThirdPartyToken => 61024,
            ErrorCode::SessionKeyNotExistedOrExpired => 87007,
            ErrorCode::InvalidSignatureMethod => 87008,
            ErrorCode::InvalidSignature => 87009,
            ErrorCode::ConfirmRequired => 89503,
            ErrorCode::RequestDeniedOneDay => 89506,
            ErrorCode::RequestDeniedOneHour => 89507,
        }
    }

    /// The code that the platform means by `value`, if it is one of those known.
    pub fn from_code(value: i32) -> (r: Option<ErrorCode>)
        ensures
            r matches Some(c) ==> code_value(c) == value,
            r is None ==> forall|c: ErrorCode| code_value(c) != value,
    {
        match value {
            -1 => Some(ErrorCode::System),
            40001 => Some(ErrorCode::InvalidCredential),
            40002 => Some(ErrorCode::InvalidGrantType),
            40013 => Some(ErrorCode::InvalidAppId),
            40029 => Some(ErrorCode::InvalidCode),
            40097 => Some(ErrorCode::InvalidParameter),
            40125 => Some(ErrorCode::InvalidSecret),
            40164 => Some(ErrorCode::ForbiddenIp),
            40226 => Some(ErrorCode::CodeBlocked),
            40243 => Some(ErrorCode::SecretFrozen),
            41001 => Some(ErrorCode::MissingAccessToken),
            41002 => Some(ErrorCode::MissingAppId),
            41004 => Some(ErrorCode::MissingSecret),
            41008 => Some(ErrorCode::MissingCode),
            43002 => Some(ErrorCode::RequiredPostMethod),
            45009 => Some(ErrorCode::DailyRequestLimitExceeded),
            45011 => Some(ErrorCode::RateLimitExceeded),
            50004 => Some(ErrorCode::ForbiddenToken),
            50007 => Some(ErrorCode::AccountFrozen),
            61024 => Some(ErrorCode::ThirdPartyToken),
            87007 => Some(ErrorCode::SessionKeyNotExistedOrExpired),
            87008 => Some(ErrorCode::InvalidSignatureMethod),
            87009 => Some(ErrorCode::InvalidSignature),
            89503 => Some(ErrorCode::ConfirmRequired),
            89506 => Some(ErrorCode::RequestDeniedOneDay),
            89507 => Some(ErrorCode::RequestDeniedOneHour),
            _ => {
                proof {
                    assert forall|c: ErrorCode| code_value(c) != value by {
                        match c {
                            _ => {},
                        }
                    }
                }
                None
            },
        }
    }

    /// What the code means, in the platform's own words.
    pub fn to_string(&self) -> (r: String)
        ensures
            r@ == code_meaning(*self),
    {
        match self {
            ErrorCode::System => String::from_str("系统繁忙，此时请开发者稍候再试"),
            ErrorCode::InvalidCredential => String::from_str("获取 access_token 时 AppSecret 错误，或者 access_token 无效。请开发者认真比对 AppSecret 的正确性，或查看是否正在为恰当的公众号调用接口"),
            ErrorCode::InvalidGrantType => String::from_str("不合法的凭证类型"),
            ErrorCode::InvalidAppId => String::from_str("不合法的 AppID ，请开发者检查 AppID 的正确性，避免异常字符，注意大小写"),
            ErrorCode::InvalidCode => String::from_str("code 无效"),
            ErrorCode::InvalidParameter => String::from_str("参数错误"),
            ErrorCode::InvalidSecret => String::from_str("无效的appsecret，请检查appsecret的正确性"),
            ErrorCode::ForbiddenIp => String::from_str("将ip添加到ip白名单列表即可"),
            ErrorCode::CodeBlocked => String::from_str("高风险等级用户，小程序登录拦截 。风险等级详见用户安全解方案"),
            ErrorCode::SecretFrozen => String::from_str("AppSecret已被冻结，请登录小程序平台解冻后再次调用"),
            ErrorCode::MissingAccessToken => String::from_str("缺少 access token 参数"),
            ErrorCode::MissingAppId => String::from_str("缺少 appid 参数"),
            ErrorCode::MissingSecret => String::from_str("缺少 secret 参数"),
            ErrorCode::MissingCode => String::from_str("MissingCode"),
            ErrorCode::RequiredPostMethod => String::from_str("需要 POST 请求"),
            ErrorCode::DailyRequestLimitExceeded => String::from_str("调用超过天级别频率限制。可调用clear_quota接口恢复调用额度。"),
            ErrorCode::RateLimitExceeded => String::from_str("API 调用太频繁，请稍候再试"),
            ErrorCode::ForbiddenToken => String::from_str("禁止使用 token 接口"),
            ErrorCode::AccountFrozen => String::from_str("账号已冻结"),
            ErrorCode::ThirdPartyToken => String::from_str("第三方平台 API 需要使用第三方平台专用 token"),
            ErrorCode::SessionKeyNotExistedOrExpired => String::from_str("session_key is not existed or expired"),
            ErrorCode::InvalidSignatureMethod => String::from_str("invalid sig_method"),
            ErrorCode::InvalidSignature => String::from_str("无效的签名"),
            ErrorCode::ConfirmRequired => String::from_str("此次调用需要管理员确认，请耐心等候"),
            ErrorCode::RequestDeniedOneDay => String::from_str("该IP调用求请求已被公众号管理员拒绝，请24小时后再试，建议调用前与管理员沟通确认"),
            ErrorCode::RequestDeniedOneHour => String::from_str("该IP调用求请求已被公众号管理员拒绝，请1小时后再试，建议调用前与管理员沟通确认"),
        }
    }
}

impl From<(ErrorCode, String)> for Error {
    /// The variant of [`Error`] that the code stands for, with the message.
    fn from(pair: (ErrorCode, String)) -> (r: Error) {
        let (code, message) = pair;
        match code {
            ErrorCode::System => Error::System(message),
            ErrorCode::InvalidCredential => Error::InvalidCredential(message),
            ErrorCode::InvalidGrantType => Error::InvalidGrantType(message),
            ErrorCode::InvalidAppId => Error::InvalidAppId(message),
            ErrorCode::InvalidCode => Error::InvalidCode(message),
            ErrorCode::InvalidParameter => Error::InvalidParameter(message),
            ErrorCode::InvalidSecret => Error::InvalidSecret(message),
            ErrorCode::ForbiddenIp => Error::ForbiddenIp(message),
            ErrorCode::CodeBlocked => Error::CodeBlocked(message),
            ErrorCode::SecretFrozen => Error::SecretFrozen(message),
            ErrorCode::MissingAccessToken => Error::MissingAccessToken(message),
            ErrorCode::MissingAppId => Error::MissingAppId(message),
            ErrorCode::MissingSecret => Error::MissingSecret(message),
            ErrorCode::MissingCode => Error::MissingCode(message),
            ErrorCode::RequiredPostMethod => Error::RequiredPostMethod(message),
            ErrorCode::DailyRequestLimitExceeded => Error::DailyRequestLimitExceeded(message),
            ErrorCode::RateLimitExceeded => Error::RateLimitExceeded(message),
            ErrorCode::ForbiddenToken => Error::ForbiddenToken(message),
            ErrorCode::AccountFrozen => Error::AccountFrozen(message),
            ErrorCode::ThirdPartyToken => Error::ThirdPartyToken(message),
            ErrorCode::SessionKeyNotExistedOrExpired => Error::SessionKeyNotExistedOrExpired(message),
            ErrorCode::InvalidSignatureMethod => Error::InvalidSignatureMethod(message),
            ErrorCode::InvalidSignature => Error::InvalidSignature(message),
            ErrorCode::ConfirmRequired => Error::ConfirmRequired(message),
            ErrorCode::RequestDeniedOneDay => Error::RequestDeniedOneDay(message),
            ErrorCode::RequestDeniedOneHour => Error::RequestDeniedOneHour(message),
        }
    }
}

impl vstd::std_specs::convert::FromSpecImpl<(ErrorCode, String)> for Error {
    open spec fn obeys_from_spec() -> bool {
        true
    }

    open spec fn from_spec(pair: (ErrorCode, String)) -> Error {
        error_for(pair.0, pair.1)
    }
}

impl From<aes::cipher::block_padding::UnpadError> for Error {
    fn from(e: aes::cipher::block_padding::UnpadError) -> (r: Error) {
        Error::Unpad(e)
    }
}

impl vstd::std_specs::convert::FromSpecImpl<aes::cipher::block_padding::UnpadError> for Error {
    open spec fn obeys_from_spec() -> bool {
        true
    }

    open spec fn from_spec(e: aes::cipher::block_padding::UnpadError) -> Error {
        Error::Unpad(e)
    }
}

impl From<aes::cipher::InvalidLength> for Error {
    fn from(e: aes::cipher::InvalidLength) -> (r: Error) {
        Error::AesInvalidLength(e)
    }
}

impl vstd::std_specs::convert::FromSpecImpl<aes::cipher::InvalidLength> for Error {
    open spec fn obeys_from_spec() -> bool {
        true
    }

    open spec fn from_spec(e: aes::cipher::InvalidLength) -> Error {
        Error::AesInvalidLength(e)
    }
}

impl From<base64::DecodeError> for Error {
    fn from(e: base64::DecodeError) -> (r: Error) {
        Error::Base64Decode(e)
    }
}

impl vstd::std_specs::convert::FromSpecImpl<base64::DecodeError> for Error {
    open spec fn obeys_from_spec() -> bool {
        true
    }

    open spec fn from_spec(e: base64::DecodeError) -> Error {
        Error::Base64Decode(e)
    }
}

impl From<ReqwestError> for Error {
    fn from(e: ReqwestError) -> (r: Error) {
        Error::Reqwest(e)
    }
}

impl vstd::std_specs::convert::FromSpecImpl<ReqwestError> for Error {
    open spec fn obeys_from_spec() -> bool {
        true
    }

    open spec fn from_spec(e: ReqwestError) -> Error {
        Error::Reqwest(e)
    }
}

impl From<SerdeJsonError> for Error {
    fn from(e: SerdeJsonError) -> (r: Error) {
        Error::SerdeJson(e)
    }
}

impl vstd::std_specs::convert::FromSpecImpl<SerdeJsonError> for Error {
    open spec fn obeys_from_spec() -> bool {
        true
    }

    open spec fn from_spec(e: SerdeJsonError) -> Error {
        Error::SerdeJson(e)
    }
}

/// The error that an answer carrying `errcode` and `errmsg` stands for:
/// none for code 0, the variant of a known code, and an internal error with
/// the message for any other code.
pub fn response_error(errcode: i32, errmsg: String) -> (r: Option<Error>)
    ensures
        errcode == 0 <==> r is None,
        errcode != 0 && (exists|c: ErrorCode| code_value(c) == errcode) ==> (r matches Some(e)
            && exists|c: ErrorCode| code_value(c) == errcode && e == error_for(c, errmsg)),
        errcode != 0 && (forall|c: ErrorCode| code_value(c) != errcode) ==> r == Some(
            Error::InternalServer(errmsg),
        ),
{
    if errcode == 0 {
        return None;
    }
    match ErrorCode::from_code(errcode) {
        Some(code) => Some(Error::from((code, errmsg))),
        None => Some(Error::InternalServer(errmsg)),
    }
}

} // verus!
