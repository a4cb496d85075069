use mutx::lock::derive_lock_path;
use sha2::Digest;
use mutx::lock::path::lock_file_name;
use mutx::MutxError;

const CACHE: &str = "/tmp/mutx-test-cache/locks";

#[test]
fn test_lock_path_format_basic() {
    let output = "/data/files/output.txt";
    let lock_path =
        derive_lock_path(output, false, Some(output), true, None, CACHE).unwrap();

    // Format: {initialism}{parent}.{filename}.{hash}.lock
    let name = lock_path.rsplit('/').next().unwrap();

    assert!(name.contains("files.output.txt."));
    assert!(name.ends_with(".lock"));

    let without_lock = name.strip_suffix(".lock").unwrap();
    let parts: Vec<&str> = without_lock.split('.').collect();
    assert!(parts.len() >= 5);

    let hash = parts[parts.len() - 1];
    assert_eq!(hash.len(), 8);
    assert!(hash.chars().all(|c| c.is_ascii_hexdigit()));
}

#[test]
fn test_lock_path_same_for_same_file() {
    let output = "/tmp/somewhere/test.txt";
    let path1 = derive_lock_path(output, false, Some(output), true, None, CACHE).unwrap();
    let path2 = derive_lock_path(output, false, Some(output), true, None, CACHE).unwrap();
    assert_eq!(path1, path2);
}

#[test]
fn test_lock_path_different_for_different_files() {
    let output1 = "/tmp/somewhere/test1.txt";
    let output2 = "/tmp/somewhere/test2.txt";
    let path1 = derive_lock_path(output1, false, Some(output1), true, None, CACHE).unwrap();
    let path2 = derive_lock_path(output2, false, Some(output2), true, None, CACHE).unwrap();
    assert_ne!(path1, path2);
}

#[test]
fn test_custom_lock_path_accepted() {
    let custom = "/tmp/somewhere/custom.lock";
    let lock_path = derive_lock_path(custom, true, None, false, None, CACHE).unwrap();
    assert_eq!(lock_path, custom);
}

#[test]
fn test_lock_path_in_cache_directory() {
    let output = "/tmp/somewhere/test.txt";
    let lock_path = derive_lock_path(output, false, Some(output), true, None, CACHE).unwrap();
    assert!(lock_path.starts_with("/tmp/mutx-test-cache/locks/"));
}

#[test]
fn test_lock_path_nonexistent_target_uses_parent() {
    // The target does not exist; its parent's canonical form plus the
    // original basename takes its place.
    let lock1 = derive_lock_path(
        "/data/files/new.txt",
        false,
        None,
        true,
        Some("/data/files"),
        CACHE,
    )
    .unwrap();
    let lock2 = derive_lock_path(
        "/data/files/new.txt",
        false,
        Some("/data/files/new.txt"),
        true,
        None,
        CACHE,
    )
    .unwrap();
    assert_eq!(lock1, lock2);
}

#[test]
fn test_lock_path_missing_parent_fails() {
    let result = derive_lock_path("/no/such/dir/out.txt", false, None, false, None, CACHE);
    match result.unwrap_err() {
        MutxError::PathNotFound(p) => assert_eq!(p, "/no/such/dir"),
        other => panic!("expected PathNotFound, got {:?}", other),
    }
}

#[test]
fn test_lock_name_hash_matches_sha256() {
    // The eight hex characters in the name are the prefix of the SHA-256
    // digest of the canonical path.
    let canonical = "/data/files/output.txt";
    let digest = sha2::Sha256::digest(canonical.as_bytes());
    let expected: String = digest[..4].iter().map(|b| format!("{:02x}", b)).collect();

    let name = lock_file_name(canonical).unwrap();
    let without_lock = name.strip_suffix(".lock").unwrap();
    let hash = &without_lock[without_lock.len() - 8..];
    assert_eq!(hash, expected);
}

#[test]
fn test_lock_name_initialism_skips_non_alphanumeric() {
    // ".hidden" starts with a dot, so it contributes no initial; "data"
    // contributes "d.".
    let name = lock_file_name("/data/a/b/files/output.txt").unwrap();
    assert!(name.starts_with("d.a.b.files.output.txt."));
    let name = lock_file_name("/.hidden/a/b/files/output.txt").unwrap();
    assert!(name.starts_with("a.b.files.output.txt."));
}

#[test]
fn test_lock_name_root_parent() {
    let name = lock_file_name("/output.txt").unwrap();
    assert!(name.starts_with("root.output.txt."));
}

#[test]
fn test_validate_lock_path_collision() {
    let path = "/tmp/somewhere/test.txt";
    let result = mutx::validate_lock_path(path, path);
    assert!(result.is_err());
    assert!(matches!(
        result.unwrap_err(),
        MutxError::LockPathCollision { .. }
    ));
}

#[test]
fn test_validate_lock_path_different() {
    let output = "/tmp/somewhere/output.txt";
    let lock = "/tmp/somewhere/output.lock";
    let result = mutx::validate_lock_path(lock, output);
    assert!(result.is_ok());
}

#[test]
fn test_get_lock_cache_dir_creates_directory() {
    // The library only names the directory; the caller creates it.
    let dir = mutx::lock::get_lock_cache_dir().unwrap();
    assert!(dir.contains("mutx"));
    assert!(dir.ends_with("locks"));
}
