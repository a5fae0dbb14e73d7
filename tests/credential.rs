use wechat_minapp::credential::session_signature;
use wechat_minapp::error::{response_error, Error, ErrorCode};
use wechat_minapp::user::{ContactBuilder, PhoneInner, UserBuilder, WatermarkBuilder};
use wechat_minapp::{Credential, CredentialBuilder};

const KEY: &str = "AAECAwQFBgcICQoLDA0ODw==";
const IV: &str = "EBESExQVFhcYGRobHB0eHw==";
const DATA: &str = "PxNiUJ3HPg0VO5NHTbIcOyp7NU4Fteg1VLeP08biDlE=";

fn credential(session_key: &str) -> Credential {
    CredentialBuilder {
        open_id: "oid".to_string(),
        session_key: session_key.to_string(),
        union_id: None,
    }
    .build()
}

#[test]
fn credential_getters() {
    let c = CredentialBuilder {
        open_id: "oid".to_string(),
        session_key: "key".to_string(),
        union_id: Some("uid".to_string()),
    }
    .build();
    assert_eq!(c.open_id(), "oid");
    assert_eq!(c.session_key(), "key");
    assert_eq!(c.union_id(), Some("uid"));
    assert_eq!(credential("k").union_id(), None);
}

#[test]
fn decrypt_recovers_plaintext() {
    let plain = credential(KEY).decrypt(DATA, IV).unwrap();
    assert_eq!(plain, br#"{"nickName":"Band","gender":1}"#.to_vec());
}

#[test]
fn decrypt_rejects_bad_base64() {
    assert!(matches!(credential("not base64!").decrypt(DATA, IV), Err(Error::Base64Decode(_))));
    assert!(matches!(credential(KEY).decrypt(DATA, "***"), Err(Error::Base64Decode(_))));
    assert!(matches!(credential(KEY).decrypt("%%", IV), Err(Error::Base64Decode(_))));
}

#[test]
fn decrypt_rejects_short_key() {
    // Eight bytes of key.
    assert!(matches!(
        credential("AAECAwQFBgc=").decrypt(DATA, IV),
        Err(Error::AesInvalidLength(_))
    ));
}

#[test]
fn decrypt_rejects_bad_padding() {
    assert!(matches!(
        credential(KEY).decrypt("B/7vdOHVA26QDu4RjpSSkw==", IV),
        Err(Error::Unpad(_))
    ));
}

#[test]
fn session_signature_is_hmac_of_empty_message() {
    assert_eq!(
        session_signature("session"),
        "53a1a926759913b77a83c9bde17be87e5feb810d1b6d9641d7a13cc88edfe11f"
    );
}

#[test]
fn error_codes_map_to_variants() {
    let code = ErrorCode::from_code(40029).unwrap();
    assert_eq!(code, ErrorCode::InvalidCode);
    assert_eq!(code.code(), 40029);
    match Error::from((code, "bad code".to_string())) {
        Error::InvalidCode(m) => assert_eq!(m, "bad code"),
        other => panic!("unexpected {:?}", other),
    }
    assert_eq!(ErrorCode::from_code(-1), Some(ErrorCode::System));
    assert_eq!(ErrorCode::from_code(89507), Some(ErrorCode::RequestDeniedOneHour));
    assert_eq!(ErrorCode::from_code(12345), None);
    let e = Error::from((ErrorCode::RateLimitExceeded, "slow down".to_string()));
    assert_eq!(e.to_string(), "rate limit exceeded: slow down");
}

#[test]
fn user_and_contact_builders() {
    let user = UserBuilder {
        nickname: "Band".to_string(),
        gender: 1,
        country: "CN".to_string(),
        province: "GD".to_string(),
        city: "SZ".to_string(),
        avatar: "https://a".to_string(),
        watermark: WatermarkBuilder { app_id: "wx1".to_string(), timestamp: 1_700_000_000 },
    }
    .build();
    assert_eq!(user.nickname(), "Band");
    assert_eq!(user.gender(), 1);
    assert_eq!(user.country(), "CN");
    assert_eq!(user.province(), "GD");
    assert_eq!(user.city(), "SZ");
    assert_eq!(user.avatar(), "https://a");
    assert_eq!(user.app_id(), "wx1");
    assert_eq!(user.timestamp(), 1_700_000_000);

    let contact = ContactBuilder {
        inner: PhoneInner {
            phone_number: "+86 13800000000".to_string(),
            pure_phone_number: "13800000000".to_string(),
            country_code: "86".to_string(),
            watermark: WatermarkBuilder { app_id: "wx2".to_string(), timestamp: 7 },
        },
    }
    .build();
    assert_eq!(contact.phone_number(), "+86 13800000000");
    assert_eq!(contact.pure_phone_number(), "13800000000");
    assert_eq!(contact.country_code(), "86");
    assert_eq!(contact.app_id(), "wx2");
    assert_eq!(contact.timestamp(), 7);
}

#[test]
fn error_code_meanings() {
    assert_eq!(ErrorCode::InvalidCode.to_string(), "code 无效");
    assert_eq!(ErrorCode::MissingCode.to_string(), "MissingCode");
    assert_eq!(ErrorCode::InvalidSignatureMethod.to_string(), "invalid sig_method");
}

#[test]
fn answers_map_to_errors() {
    assert!(response_error(0, "ok".to_string()).is_none());
    assert!(matches!(response_error(40029, "bad".to_string()), Some(Error::InvalidCode(m)) if m == "bad"));
    assert!(matches!(response_error(-1, "busy".to_string()), Some(Error::System(_))));
    assert!(matches!(response_error(99999, "odd".to_string()), Some(Error::InternalServer(m)) if m == "odd"));
}
