use transfer_engine::errors::{AppError, ErrorKind, IoErrorKind};
use transfer_engine::text::{i64_to_string, u64_to_string};

#[test]
fn test_error_kind_mapping() {
    assert_eq!(AppError::Timeout.kind(), ErrorKind::Transient);
    assert_eq!(AppError::NotFound("test".into()).kind(), ErrorKind::NotFound);
    assert_eq!(AppError::StorageFull.kind(), ErrorKind::Permanent);
    assert_eq!(
        AppError::PermissionDenied("test".into()).kind(),
        ErrorKind::Permission
    );
}

#[test]
fn test_retryable() {
    assert!(AppError::Timeout.is_retryable());
    assert!(!AppError::StorageFull.is_retryable());
}

#[test]
fn test_error_kind_mapping_all_variants() {
    assert_eq!(AppError::Network("down".into()).kind(), ErrorKind::Transient);
    assert_eq!(
        AppError::ConnectionLost("gone".into()).kind(),
        ErrorKind::Transient
    );
    assert_eq!(
        AppError::PermissionRevoked("saf".into()).kind(),
        ErrorKind::Permission
    );
    assert_eq!(AppError::PathInvalid("p".into()).kind(), ErrorKind::InvalidState);
    assert_eq!(AppError::InvalidState("s".into()).kind(), ErrorKind::InvalidState);
    assert_eq!(AppError::Cancelled("c".into()).kind(), ErrorKind::Cancelled);
    assert_eq!(AppError::AlreadyExists("a".into()).kind(), ErrorKind::Permanent);
    assert_eq!(AppError::ChecksumMismatch.kind(), ErrorKind::Permanent);
    assert_eq!(AppError::Transfer("t".into()).kind(), ErrorKind::Permanent);
    assert_eq!(AppError::Unknown("u".into()).kind(), ErrorKind::Permanent);
}

#[test]
fn test_error_kind_mapping_io() {
    assert_eq!(AppError::Io(IoErrorKind::TimedOut).kind(), ErrorKind::Transient);
    assert_eq!(AppError::Io(IoErrorKind::Interrupted).kind(), ErrorKind::Transient);
    assert_eq!(AppError::Io(IoErrorKind::WouldBlock).kind(), ErrorKind::Transient);
    assert_eq!(
        AppError::Io(IoErrorKind::PermissionDenied).kind(),
        ErrorKind::Permission
    );
    assert_eq!(AppError::Io(IoErrorKind::NotFound).kind(), ErrorKind::NotFound);
    assert_eq!(AppError::Io(IoErrorKind::Other).kind(), ErrorKind::Permanent);
}

#[test]
fn test_needs_user_action() {
    assert!(AppError::PermissionDenied("p".into()).needs_user_action());
    assert!(AppError::NotFound("n".into()).needs_user_action());
    assert!(!AppError::Timeout.needs_user_action());
    assert!(!AppError::StorageFull.needs_user_action());
    assert!(
        AppError::Io(IoErrorKind::NotFound).is_user_action_required()
    );
    assert!(!AppError::Cancelled("c".into()).is_user_action_required());
}

#[test]
fn test_decimal_rendering() {
    assert_eq!(u64_to_string(0), "0");
    assert_eq!(u64_to_string(7), "7");
    assert_eq!(u64_to_string(1234), "1234");
    assert_eq!(u64_to_string(u64::MAX), "18446744073709551615");
    assert_eq!(i64_to_string(0), "0");
    assert_eq!(i64_to_string(-5), "-5");
    assert_eq!(i64_to_string(i64::MIN), "-9223372036854775808");
    assert_eq!(i64_to_string(i64::MAX), "9223372036854775807");
}
