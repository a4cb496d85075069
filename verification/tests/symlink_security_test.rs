use mutx::utils::{check_lock_symlink, check_symlink};
use mutx::MutxError;

#[test]
fn test_rejects_symlink_by_default() {
    let result = check_symlink("/tmp/link.txt", true, false);
    assert!(result.is_err());
    assert!(matches!(
        result.unwrap_err(),
        MutxError::SymlinkNotAllowed { .. }
    ));
}

#[test]
fn test_allows_symlink_when_enabled() {
    assert!(check_symlink("/tmp/link.txt", true, true).is_ok());
}

#[test]
fn test_allows_regular_file() {
    assert!(check_symlink("/tmp/regular.txt", false, false).is_ok());
}

#[test]
fn test_allows_nonexistent_file() {
    // A path that does not exist is not a symlink.
    assert!(check_symlink("/tmp/nonexistent.txt", false, false).is_ok());
}

#[test]
fn test_lock_symlink_rejected_by_default() {
    let result = check_lock_symlink("/tmp/link.lock", true, false);
    assert!(matches!(
        result.unwrap_err(),
        MutxError::LockSymlinkNotAllowed { .. }
    ));
}

#[test]
fn test_lock_symlink_allowed_with_flag() {
    assert!(check_lock_symlink("/tmp/link.lock", true, true).is_ok());
}

#[test]
fn test_nonexistent_path_allowed() {
    assert!(check_symlink("/tmp/nonexistent", false, false).is_ok());
    assert!(check_lock_symlink("/tmp/nonexistent", false, false).is_ok());
}

#[test]
fn test_regular_file_allowed() {
    assert!(check_symlink("/tmp/file.txt", false, false).is_ok());
    assert!(check_lock_symlink("/tmp/file.txt", false, false).is_ok());
}
