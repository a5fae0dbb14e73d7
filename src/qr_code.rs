//! The arguments of a mini-program code image and the image itself.
use vstd::prelude::*;
use vstd::string::StringExecFns;
use crate::error::Error;
use crate::strings::{byte_len, utf8_len};

verus! {

/// The longest page path that a code accepts, in bytes.
pub const MAX_PATH_LEN: usize = 1024;

/// A generated code image, usually PNG.
#[derive(Debug, Clone)]
pub struct QrCode {
    buffer: Vec<u8>,
}

impl QrCode {
    /// The image made of `buffer`.
    pub fn from_bytes(buffer: Vec<u8>) -> (r: QrCode)
        ensures
            r.buffer_view() == buffer@,
    {
        QrCode { buffer }
    }

    pub closed spec fn buffer_view(&self) -> Seq<u8> {
        self.buffer@
    }

    /// The bytes of the image.
    pub fn buffer(&self) -> (r: &Vec<u8>)
        ensures
            r@ == self.buffer_view(),
    {
        &self.buffer
    }
}

/// The colour of the lines of a code; each component from 0 to 255.
#[derive(Debug, Clone, Copy, PartialEq, Eq, Structural)]
pub struct Rgb {
    r: i16,
    g: i16,
    b: i16,
}

impl Rgb {
    pub closed spec fn spec_components(&self) -> (i16, i16, i16) {
        (self.r, self.g, self.b)
    }

    pub fn new(r: i16, g: i16, b: i16) -> (c: Self)
        ensures
            c.spec_components() == (r, g, b),
    {
        Rgb { r, g, b }
    }

    /// The red, green and blue components.
    pub fn components(&self) -> (c: (i16, i16, i16))
        ensures
            c == self.spec_components(),
    {
        (self.r, self.g, self.b)
    }
}

/// Which version of the mini program a code opens.
#[derive(Debug, Clone, Copy, PartialEq, Eq, Structural)]
pub enum MinappEnvVersion {
    Release,
    Trial,
    Develop,
}

/// The name that the platform uses for `version`.
pub open spec fn env_version_name(version: MinappEnvVersion) -> Seq<char> {
    match version {
        MinappEnvVersion::Develop => "develop"@,
        MinappEnvVersion::Release => "release"@,
        MinappEnvVersion::Trial => "trial"@,
    }
}

impl MinappEnvVersion {
    /// The name that the platform uses for this version.
    pub fn as_str(&self) -> (r: &'static str)
        ensures
            r@ == env_version_name(*self),
    {
        match self {
            MinappEnvVersion::Develop => "develop",
            MinappEnvVersion::Release => "release",
            MinappEnvVersion::Trial => "trial",
        }
    }
}

impl From<MinappEnvVersion> for String {
    /// The name that the platform uses for the version; see
    /// [`MinappEnvVersion::as_str`].
    fn from(value: MinappEnvVersion) -> (r: String) {
        String::from_str(value.as_str())
    }
}

impl vstd::std_specs::convert::FromSpecImpl<MinappEnvVersion> for String {
    open spec fn obeys_from_spec() -> bool {
        false
    }

    open spec fn from_spec(value: MinappEnvVersion) -> String {
        arbitrary()
    }
}

/// The arguments of a code: the page it opens and how it looks.
#[derive(Debug)]
pub struct QrCodeArgs {
    path: String,
    width: Option<i16>,
    auto_color: Option<bool>,
    line_color: Option<Rgb>,
    is_hyaline: Option<bool>,
    env_version: Option<MinappEnvVersion>,
}

pub struct QrCodeArgsView {
    pub path: Seq<char>,
    pub width: Option<i16>,
    pub auto_color: Option<bool>,
    pub line_color: Option<Rgb>,
    pub is_hyaline: Option<bool>,
    pub env_version: Option<MinappEnvVersion>,
}

impl View for QrCodeArgs {
    type V = QrCodeArgsView;

    closed spec fn view(&self) -> QrCodeArgsView {
        QrCodeArgsView {
            path: self.path@,
            width: self.width,
            auto_color: self.auto_color,
            line_color: self.line_color,
            is_hyaline: self.is_hyaline,
            env_version: self.env_version,
        }
    }
}

impl QrCodeArgs {
    pub fn builder() -> (r: QrCodeArgBuilder)
        ensures
            r@ == QrCodeArgBuilderView::empty(),
    {
        QrCodeArgBuilder::new()
    }

    pub fn path(&self) -> (r: String)
        ensures
            r@ == self@.path,
    {
        self.path.clone()
    }

    pub fn width(&self) -> (r: Option<i16>)
        ensures
            r == self@.width,
    {
        self.width
    }

    pub fn auto_color(&self) -> (r: Option<bool>)
        ensures
            r == self@.auto_color,
    {
        self.auto_color
    }

    pub fn line_color(&self) -> (r: Option<Rgb>)
        ensures
            r == self@.line_color,
    {
        self.line_color
    }

    pub fn is_hyaline(&self) -> (r: Option<bool>)
        ensures
            r == self@.is_hyaline,
    {
        self.is_hyaline
    }

    pub fn env_version(&self) -> (r: Option<MinappEnvVersion>)
        ensures
            r == self@.env_version,
    {
        self.env_version
    }
}

/// Collects the arguments of a code one by one.
#[derive(Debug)]
pub struct QrCodeArgBuilder {
    path: Option<String>,
    width: Option<i16>,
    auto_color: Option<bool>,
    line_color: Option<Rgb>,
    is_hyaline: Option<bool>,
    env_version: Option<MinappEnvVersion>,
}

pub struct QrCodeArgBuilderView {
    pub path: Option<Seq<char>>,
    pub width: Option<i16>,
    pub auto_color: Option<bool>,
    pub line_color: Option<Rgb>,
    pub is_hyaline: Option<bool>,
    pub env_version: Option<MinappEnvVersion>,
}

impl QrCodeArgBuilderView {
    pub open spec fn empty() -> QrCodeArgBuilderView {
        QrCodeArgBuilderView {
            path: None,
            width: None,
            auto_color: None,
            line_color: None,
            is_hyaline: None,
            env_version: None,
        }
    }
}

impl View for QrCodeArgBuilder {
    type V = QrCodeArgBuilderView;

    closed spec fn view(&self) -> QrCodeArgBuilderView {
        QrCodeArgBuilderView {
            path: match &self.path {
                Some(p) => Some(p@),
                None => None,
            },
            width: self.width,
            auto_color: self.auto_color,
            line_color: self.line_color,
            is_hyaline: self.is_hyaline,
            env_version: self.env_version,
        }
    }
}

/// Why collected code arguments cannot be built, if they cannot.
pub open spec fn qr_code_problem(v: QrCodeArgBuilderView) -> Option<Seq<char>> {
    match v.path {
        None => Some("小程序页面路径不能为空"@),
        Some(p) => if utf8_len(p) > MAX_PATH_LEN {
            Some("页面路径最大长度 1024 个字符"@)
        } else {
            None
        },
    }
}

impl Default for QrCodeArgBuilder {
    fn default() -> (r: Self)
        ensures
            r@ == QrCodeArgBuilderView::empty(),
    {
        Self::new()
    }
}

impl QrCodeArgBuilder {
    pub fn new() -> (r: Self)
        ensures
            r@ == QrCodeArgBuilderView::empty(),
    {
        QrCodeArgBuilder {
            path: None,
            width: None,
            auto_color: None,
            line_color: None,
            is_hyaline: None,
            env_version: None,
        }
    }

    pub fn path(self, path: &str) -> (r: Self)
        ensures
            r@ == (QrCodeArgBuilderView { path: Some(path@), ..self@ }),
    {
        QrCodeArgBuilder { path: Some(String::from_str(path)), ..self }
    }

    /// The width of the image in pixels.
    pub fn width(self, width: i16) -> (r: Self)
        ensures
            r@ == (QrCodeArgBuilderView { width: Some(width), ..self@ }),
    {
        QrCodeArgBuilder { width: Some(width), ..self }
    }

    /// Lets the platform pick the line colour.
    pub fn with_auto_color(self) -> (r: Self)
        ensures
            r@ == (QrCodeArgBuilderView { auto_color: Some(true), ..self@ }),
    {
        QrCodeArgBuilder { auto_color: Some(true), ..self }
    }

    pub fn line_color(self, color: Rgb) -> (r: Self)
        ensures
            r@ == (QrCodeArgBuilderView { line_color: Some(color), ..self@ }),
    {
        QrCodeArgBuilder { line_color: Some(color), ..self }
    }

    /// Asks for a transparent background.
    pub fn with_is_hyaline(self) -> (r: Self)
        ensures
            r@ == (QrCodeArgBuilderView { is_hyaline: Some(true), ..self@ }),
    {
        QrCodeArgBuilder { is_hyaline: Some(true), ..self }
    }

    pub fn env_version(self, version: MinappEnvVersion) -> (r: Self)
        ensures
            r@ == (QrCodeArgBuilderView { env_version: Some(version), ..self@ }),
    {
        QrCodeArgBuilder { env_version: Some(version), ..self }
    }

    /// The arguments collected. The path is required and at most 1024
    /// bytes long; everything else is passed on as it was given.
    pub fn build(self) -> (r: Result<QrCodeArgs, Error>)
        ensures
            qr_code_problem(self@) matches Some(m) ==> (r matches Err(Error::InvalidParameter(
                msg,
            )) && msg@ == m),
            r is Ok <==> qr_code_problem(self@) is None,
            r matches Ok(a) ==> a@ == (QrCodeArgsView {
                path: self@.path->0,
                width: self@.width,
                auto_color: self@.auto_color,
                line_color: self@.line_color,
                is_hyaline: self@.is_hyaline,
                env_version: self@.env_version,
            }),
    {
        let path = match self.path {
            Some(p) => p,
            None => {
                return Err(Error::InvalidParameter(String::from_str("小程序页面路径不能为空")));
            },
        };
        if byte_len(&path) > MAX_PATH_LEN {
            return Err(Error::InvalidParameter(String::from_str("页面路径最大长度 1024 个字符")));
        }
        Ok(
            QrCodeArgs {
                path,
                width: self.width,
                auto_color: self.auto_color,
                line_color: self.line_color,
                is_hyaline: self.is_hyaline,
                env_version: self.env_version,
            },
        )
    }
}

} // verus!
