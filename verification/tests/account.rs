use carbonbond::account::{
    authenticate, check_introduction, check_password_length, password_check_verdict, verify_password,
    AccountConfig, Credentials,
};
use carbonbond::error::{Error, ErrorCode, InternalError};

const SALT: &[u8] = b"somesalt";
const HASH: [u8; 32] = [
    137, 104, 116, 234, 240, 252, 23, 45, 187, 193, 255, 103, 166, 126, 133, 93, 104, 130, 95, 130, 186,
    165, 110, 148, 123, 80, 103, 207, 61, 59, 103, 192,
];

fn config() -> AccountConfig {
    AccountConfig { min_password_length: 6, max_password_length: 10 }
}

fn denied(msg: &str) -> Error {
    Error::Logic { code: ErrorCode::PermissionDenied, context: Some(msg.to_string()) }
}

#[test]
fn password_length_within_bounds_is_accepted() {
    assert_eq!(check_password_length("abcdef", &config()), Ok(()));
    assert_eq!(check_password_length("abcdefghij", &config()), Ok(()));
}

#[test]
fn password_length_outside_bounds_is_refused() {
    let refused = Err(Error::Logic { code: ErrorCode::PasswordLength, context: None });
    assert_eq!(check_password_length("abcde", &config()), refused);
    assert_eq!(check_password_length("abcdefghijk", &config()), refused);
    assert_eq!(check_password_length("", &config()), refused);
}

#[test]
fn password_length_counts_utf8_bytes() {
    // Two characters, six bytes.
    assert_eq!(check_password_length("密碼", &config()), Ok(()));
    // Four characters, twelve bytes.
    assert!(check_password_length("密碼密碼", &config()).is_err());
}

#[test]
fn introduction_of_at_most_1000_chars_is_accepted() {
    let text: String = std::iter::repeat('字').take(1000).collect();
    assert_eq!(check_introduction(&text), Ok(()));
    assert_eq!(check_introduction(""), Ok(()));
}

#[test]
fn introduction_over_1000_chars_is_refused() {
    let text: String = std::iter::repeat('a').take(1001).collect();
    assert_eq!(
        check_introduction(&text),
        Err(Error::Logic { code: ErrorCode::ArgumentFormatError("自我介紹長度".to_string()), context: None })
    );
}

#[test]
fn verify_password_matches_the_reference_hash() {
    assert_eq!(verify_password("password", SALT, &HASH), Ok(true));
    assert_eq!(verify_password("passwore", SALT, &HASH), Ok(false));
}

#[test]
fn verify_password_refuses_short_salt_and_hash() {
    assert_eq!(verify_password("password", b"short", &HASH), Err(Error::Internal(InternalError::PasswordHash)));
    assert_eq!(verify_password("password", SALT, &HASH[..3]), Err(Error::Internal(InternalError::PasswordHash)));
}

#[test]
fn password_check_verdict_cases() {
    assert_eq!(password_check_verdict(Ok(true)), Ok(()));
    assert_eq!(password_check_verdict(Ok(false)), Err(denied("密碼錯誤")));
    let e = Error::Internal(InternalError::PasswordHash);
    assert_eq!(password_check_verdict(Err(e.clone())), Err(e));
}

#[test]
fn authenticate_admits_the_right_password() {
    let c = Credentials { salt: SALT.to_vec(), password_hashed: HASH.to_vec() };
    assert_eq!(authenticate("password", Some(c)), Ok(()));
}

#[test]
fn authenticate_refuses_wrong_password_and_unknown_user() {
    let c = Credentials { salt: SALT.to_vec(), password_hashed: HASH.to_vec() };
    assert_eq!(authenticate("drowssap", Some(c)), Err(denied("密碼錯誤")));
    assert_eq!(authenticate("password", None), Err(denied("查無使用者")));
}
