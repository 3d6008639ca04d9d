use std::convert::TryFrom;
use std::str::FromStr;

use status_codes::status::{InvalidStatusCode, StatusCode};

#[test]
fn it_works() {
    assert!(StatusCode::OK().is_success());
}

#[test]
fn from_u16_accepts_valid_range() {
    for n in [0u16, 1, 9999, 10111, 39999, 40000] {
        let code = StatusCode::from_u16(n).unwrap();
        assert_eq!(code.as_u16(), n);
    }
}

#[test]
fn from_u16_rejects_above_limit() {
    for n in [40001u16, 50000, u16::MAX] {
        assert!(StatusCode::from_u16(n).is_err());
    }
}

#[test]
fn equals_raw_number_both_ways() {
    let code = StatusCode::from_u16(10111).unwrap();
    assert!(code == 10111u16);
    assert!(10111u16 == code);
    assert!(code != 10112u16);
    assert!(10110u16 != code);
    assert!(StatusCode::OK() == 0u16);
}

#[test]
fn from_bytes_reads_each_position() {
    assert_eq!(StatusCode::from_bytes(b"01234").unwrap().as_u16(), 1234);
    assert_eq!(StatusCode::from_bytes(b"10133").unwrap().as_u16(), 10133);
    assert_eq!(StatusCode::from_bytes(b"39999").unwrap().as_u16(), 39999);
}

#[test]
fn from_bytes_zero_is_ok() {
    let code = StatusCode::from_bytes(b"00000").unwrap();
    assert_eq!(code, StatusCode::OK());
    assert!(code.is_success());
}

#[test]
fn from_bytes_rejects_wrong_length() {
    assert!(StatusCode::from_bytes(b"").is_err());
    assert!(StatusCode::from_bytes(b"1234").is_err());
    assert!(StatusCode::from_bytes(b"012345").is_err());
}

#[test]
fn from_bytes_rejects_non_digits() {
    assert!(StatusCode::from_bytes(b"0a234").is_err());
    assert!(StatusCode::from_bytes(b"0123/").is_err());
    assert!(StatusCode::from_bytes(b"0123:").is_err());
    assert!(StatusCode::from_bytes(b" 1234").is_err());
}

#[test]
fn from_bytes_rejects_high_first_digit() {
    assert!(StatusCode::from_bytes(b"41234").is_err());
    assert!(StatusCode::from_bytes(b"40000").is_err());
    assert!(StatusCode::from_bytes(b"99999").is_err());
}

#[test]
fn parse_and_try_from_str() {
    assert_eq!(StatusCode::from_str("01234").unwrap().as_u16(), 1234);
    assert!(StatusCode::from_str("41234").is_err());
    let parsed: StatusCode = "10111".parse().unwrap();
    assert_eq!(parsed, StatusCode::USERNAME_EXISTS());
    assert_eq!(StatusCode::try_from("10001").unwrap(), StatusCode::CLIENT_ERROR());
    assert!(StatusCode::try_from("1000").is_err());
}

#[test]
fn try_from_u16() {
    assert_eq!(StatusCode::try_from(10120u16).unwrap().as_u16(), 10120);
    assert!(StatusCode::try_from(40001u16).is_err());
}

#[test]
fn default_is_ok() {
    assert_eq!(StatusCode::default(), StatusCode::OK());
    assert_eq!(StatusCode::default().as_u16(), 0);
    assert!(StatusCode::OK().is_success());
}

fn named_codes() -> Vec<(StatusCode, u16, &'static str)> {
    vec![
        (StatusCode::OK(), 0, "Ok"),
        (StatusCode::CLIENT_ERROR(), 10001, "Client Error"),
        (StatusCode::REGISTER_FAILED(), 10100, "Register Failed"),
        (StatusCode::NOT_AGREE_PRIVACY(), 10101, "Did Not Agree to the Privacy Agreement"),
        (StatusCode::COUNTRY_OR_REGION_NOT_ALLOWED(), 10102, "Country or Region not allowed"),
        (StatusCode::USERNAME_FAILED(), 10110, "Username Failed"),
        (StatusCode::USERNAME_EXISTS(), 10111, "Username Already Exists"),
        (StatusCode::USERNAME_CONTAINS_SENSITIVE_WORD(), 10112, "Username Contains Sensitive Word"),
        (StatusCode::USERNAME_CONTAINS_SPECIAL_CHAR(), 10113, "Username Contains Special Character"),
        (StatusCode::PASSWORD_FAILED(), 10120, "Password Failed"),
        (StatusCode::PASSWORD_TO_SHORT(), 10121, "Password is To Short"),
        (StatusCode::PASSWORD_TO_WEAK(), 10122, "Password is to WEAK"),
        (StatusCode::VERIFICATION_CODE_FAILED(), 10130, "Verification Code Failed"),
        (StatusCode::SMS_VERIFICATION_CODE_FAILED(), 10131, "Sms Verification Code Failed"),
        (StatusCode::EMAIL_VERIFICATION_CODE_FAILED(), 10132, "Email Verification Code Failed"),
        (StatusCode::VOICE_VERIFICATION_CODE_FAILED(), 10133, "Voice Verification Code Failed"),
    ]
}

#[test]
fn only_ok_is_success() {
    for (code, n, _) in named_codes() {
        assert_eq!(code.is_success(), n == 0);
    }
    assert!(!StatusCode::CLIENT_ERROR().is_success());
    assert!(!StatusCode::USERNAME_EXISTS().is_success());
    assert!(!StatusCode::from_u16(1).unwrap().is_success());
}

#[test]
fn canonical_reason_of_every_named_code() {
    for (code, n, phrase) in named_codes() {
        assert_eq!(code.as_u16(), n);
        assert_eq!(code.canonical_reason(), Some(phrase));
        assert_eq!(StatusCode::from_u16(n).unwrap().canonical_reason(), Some(phrase));
    }
}

#[test]
fn canonical_reason_absent_for_unlisted() {
    for n in [1u16, 10000, 10002, 10103, 10134, 40000] {
        assert_eq!(StatusCode::from_u16(n).unwrap().canonical_reason(), None);
    }
}

#[test]
fn display_of_ok() {
    assert_eq!(StatusCode::OK().to_string(), "0 Ok");
}

#[test]
fn display_of_unlisted_code() {
    assert_eq!(StatusCode::from_u16(1).unwrap().to_string(), "1 <unknown status code>");
    assert_eq!(StatusCode::from_u16(40000).unwrap().to_string(), "40000 <unknown status code>");
}

#[test]
fn display_of_named_code() {
    assert_eq!(StatusCode::USERNAME_EXISTS().to_string(), "10111 Username Already Exists");
    assert_eq!(StatusCode::PASSWORD_TO_WEAK().to_string(), "10122 Password is to WEAK");
}

#[test]
fn debug_form_is_the_number() {
    assert_eq!(StatusCode::OK().to_debug_string(), "0");
    assert_eq!(StatusCode::from_u16(305).unwrap().to_debug_string(), "305");
    assert_eq!(StatusCode::VERIFICATION_CODE_FAILED().to_debug_string(), "10130");
}

#[test]
fn numeric_and_textual_constructors_agree() {
    let pairs: [(u16, &[u8]); 4] = [(0, b"00000"), (1234, b"01234"), (10111, b"10111"), (39999, b"39999")];
    for (n, text) in pairs {
        let a = StatusCode::from_u16(n).unwrap();
        let b = StatusCode::from_bytes(text).unwrap();
        assert!(a == b);
        assert!(!(a != b));
        assert!(a <= b && a >= b);
        assert!(!(a < b) && !(a > b));
        assert_eq!(a.partial_cmp(&b), Some(std::cmp::Ordering::Equal));
        assert_eq!(a.cmp(&b), std::cmp::Ordering::Equal);
    }
}

#[test]
fn ordering_follows_number() {
    let low = StatusCode::from_u16(10001).unwrap();
    let high = StatusCode::from_u16(10133).unwrap();
    assert!(low < high);
    assert!(high > low);
    assert_eq!(low.cmp(&high), std::cmp::Ordering::Less);
    assert!(StatusCode::OK() < low);
}

#[test]
fn conversions() {
    let code = StatusCode::USERNAME_FAILED();
    assert_eq!(u16::from(code), 10110);
    let copy = StatusCode::from(&code);
    assert_eq!(copy, code);
}

#[test]
fn invalid_status_code_message() {
    let err: InvalidStatusCode = StatusCode::from_u16(40001).unwrap_err();
    assert_eq!(err.to_string(), "invalid status code");
}

#[test]
fn from_str_matches_from_bytes() {
    assert_eq!(StatusCode::from_str("00000").unwrap(), StatusCode::OK());
    assert!(StatusCode::from_str("1234").is_err());
    assert!(StatusCode::from_str("012345").is_err());
    assert!(StatusCode::from_str("0123a").is_err());
    for text in ["01234", "10133", "39999", "40000", "x1234", ""] {
        let parsed = StatusCode::from_str(text).ok();
        let read = StatusCode::from_bytes(text.as_bytes()).ok();
        assert_eq!(parsed, read);
        assert_eq!(StatusCode::try_from(text).ok(), read);
    }
    let a = StatusCode::from_u16(1234).unwrap();
    let b = StatusCode::from_str("01234").unwrap();
    assert!(a == b && a <= b && a >= b && !(a < b) && !(a > b));
}
