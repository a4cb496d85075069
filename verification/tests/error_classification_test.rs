use mutx::error::{AppError, ErrorKind, IoErrorInfo, IoKind, MutxError};

fn io_info(kind: IoKind) -> IoErrorInfo {
    IoErrorInfo {
        kind,
        raw_os_error: None,
        message: String::from("os error"),
    }
}

#[test]
fn test_lock_timeout_error_classification() {
    let err = MutxError::lock_timeout(5000);
    assert_eq!(err.exit_code(), 2);
}

#[test]
fn test_lock_would_block_error_classification() {
    let err = MutxError::lock_would_block("test.lock");
    assert_eq!(err.exit_code(), 2);
}

#[test]
fn test_permission_error_classification() {
    let err = MutxError::from(io_info(IoKind::PermissionDenied));
    assert_eq!(err.exit_code(), 1);
}

#[test]
fn test_interrupted_error_classification() {
    let err = MutxError::from(io_info(IoKind::Interrupted));
    assert_eq!(err.exit_code(), 3);
}

#[test]
fn test_interrupted_variant_exit_code() {
    assert_eq!(MutxError::Interrupted.exit_code(), 3);
    assert_eq!(MutxError::Interrupted.message(), "Operation interrupted");
}

#[test]
fn test_general_errors_exit_code_one() {
    assert_eq!(MutxError::Other(String::from("boom")).exit_code(), 1);
    assert_eq!(MutxError::PathNotFound(String::from("/p")).exit_code(), 1);
    assert_eq!(MutxError::NotAFile(String::from("/p")).exit_code(), 1);
    assert_eq!(MutxError::NotADirectory(String::from("/p")).exit_code(), 1);
    assert_eq!(
        MutxError::InvalidPermissions { input: String::from("rwx") }.exit_code(),
        1
    );
    assert_eq!(MutxError::PermissionDenied(String::from("cache")).exit_code(), 1);
    assert_eq!(
        MutxError::CacheDirectoryFailed {
            path: String::from("/c"),
            source: io_info(IoKind::Other),
        }
        .exit_code(),
        1
    );
}

#[test]
fn test_error_messages_name_the_path() {
    let err = MutxError::PathNotFound(String::from("/missing/file"));
    assert_eq!(err.message(), "Path does not exist: /missing/file");
    let err = MutxError::NotADirectory(String::from("/some/file"));
    assert_eq!(err.message(), "Path is not a directory: /some/file");
    let err = MutxError::LockWouldBlock(String::from("/l.lock"));
    assert_eq!(
        err.message(),
        "Failed to acquire lock on /l.lock: file is locked by another process"
    );
}

#[test]
fn test_app_error_classification_from_message() {
    let err = AppError::from_anyhow(anyhow::Error::msg("Failed to acquire lock: timeout after 5s"));
    assert_eq!(err.exit_code(), 2);
    let err = AppError::from_anyhow(anyhow::Error::msg("resource is LOCKED by another process"));
    assert_eq!(err.exit_code(), 2);
    let err = AppError::from_anyhow(anyhow::Error::msg("Permission denied (os error 13)"));
    assert_eq!(err.exit_code(), 1);
    let err = AppError::from_anyhow(anyhow::Error::msg("operation interrupted by signal"));
    assert_eq!(err.exit_code(), 3);
    let err = AppError::from_anyhow(anyhow::Error::msg("something else went wrong"));
    assert_eq!(err.exit_code(), 1);
}

#[test]
fn test_app_error_keeps_message() {
    let err = AppError::from_anyhow(anyhow::Error::msg("boom"));
    assert_eq!(err.message(), "boom");
    assert_eq!(err.exit_code(), 1);
}

#[test]
fn test_app_error_new_keeps_kind() {
    let err = AppError::new(ErrorKind::Timeout, anyhow::Error::msg("x"));
    assert_eq!(err.exit_code(), 2);
    let err = AppError::new(ErrorKind::Interrupted, anyhow::Error::msg("x"));
    assert_eq!(err.exit_code(), 3);
}
