use carbonbond::error::{lookup_error, DataType, Error, ErrorCode, InternalError};

#[test]
fn missing_row_is_not_found() {
    assert_eq!(
        lookup_error(DataType::User, "42".to_string(), true),
        Error::Logic { code: ErrorCode::NotFound(DataType::User, "42".to_string()), context: None }
    );
}

#[test]
fn other_failures_are_database_errors() {
    assert_eq!(lookup_error(DataType::User, "amy".to_string(), false), Error::Internal(InternalError::Database));
}

#[test]
fn error_constructors() {
    assert_eq!(Error::from_code(ErrorCode::PasswordLength), Error::Logic { code: ErrorCode::PasswordLength, context: None });
    assert_eq!(
        Error::with_context(ErrorCode::PermissionDenied, "查無使用者"),
        Error::Logic { code: ErrorCode::PermissionDenied, context: Some("查無使用者".to_string()) }
    );
}
