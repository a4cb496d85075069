use mutx::backup::{
    backup_file_name, create_backup_plan, generate_backup_path, validate_backup_suffix,
};
use mutx::{BackupConfig, MutxError};

fn config(source: &str, suffix: &str, directory: Option<&str>, timestamp: bool) -> BackupConfig {
    BackupConfig {
        source: String::from(source),
        suffix: String::from(suffix),
        directory: directory.map(String::from),
        timestamp,
    }
}

#[test]
fn test_generate_backup_path_simple() {
    let cfg = config("/work/test.txt", ".mutx.backup", None, false);
    let path = generate_backup_path(&cfg).unwrap();
    assert_eq!(path, "/work/test.txt.mutx.backup");
}

#[test]
fn test_generate_backup_path_with_directory() {
    let cfg = config("/work/test.txt", ".mutx.backup", Some("/work/backups"), false);
    let path = generate_backup_path(&cfg).unwrap();
    assert_eq!(path, "/work/backups/test.txt.mutx.backup");
}

#[test]
fn test_backup_filename_format_with_timestamp() {
    let cfg = config("/work/data.txt", ".mutx.backup", None, true);
    let path = generate_backup_path(&cfg).unwrap();
    let name = path.rsplit('/').next().unwrap();
    assert!(name.starts_with("data.txt."));
    assert!(name.ends_with(".mutx.backup"));
    let middle = name
        .strip_prefix("data.txt.")
        .unwrap()
        .strip_suffix(".mutx.backup")
        .unwrap();
    assert_eq!(middle.len(), 15);
    assert_eq!(middle.as_bytes()[8], b'_');
    for (i, c) in middle.chars().enumerate() {
        if i != 8 {
            assert!(c.is_ascii_digit());
        }
    }
}

#[test]
fn test_backup_filename_format_without_timestamp() {
    let cfg = config("/etc/config.json", ".mutx.backup", None, false);
    let path = generate_backup_path(&cfg).unwrap();
    assert_eq!(path, "/etc/config.json.mutx.backup");
}

#[test]
fn test_custom_suffix_without_timestamp() {
    assert_eq!(backup_file_name("test.txt", ".bak", None), "test.txt.bak");
}

#[test]
fn test_custom_suffix_with_timestamp() {
    assert_eq!(
        backup_file_name("test.txt", ".bak", Some("20260125_143000")),
        "test.txt.20260125_143000.bak"
    );
}

#[test]
fn test_default_suffix() {
    assert_eq!(
        backup_file_name("test.txt", ".mutx.backup", None),
        "test.txt.mutx.backup"
    );
}

#[test]
fn test_backup_nonexistent_file_fails() {
    let cfg = config("/work/nonexistent.txt", ".mutx.backup", None, false);
    let result = create_backup_plan(&cfg, false, false);
    match result.unwrap_err() {
        MutxError::PathNotFound(p) => assert_eq!(p, "/work/nonexistent.txt"),
        other => panic!("expected PathNotFound, got {:?}", other),
    }
}

#[test]
fn test_backup_source_must_be_file() {
    let cfg = config("/work/dir", ".mutx.backup", None, false);
    let result = create_backup_plan(&cfg, true, false);
    assert!(matches!(result.unwrap_err(), MutxError::NotAFile(_)));
}

#[test]
fn test_validate_backup_suffix_rejects_empty() {
    let result = validate_backup_suffix("");
    assert!(result.is_err());
    match result.unwrap_err() {
        MutxError::Other(msg) => assert_eq!(msg, "Backup suffix cannot be empty"),
        _ => panic!("Expected Other error"),
    }
}

#[test]
fn test_validate_backup_suffix_rejects_single_dot() {
    let result = validate_backup_suffix(".");
    assert!(result.is_err());
    match result.unwrap_err() {
        MutxError::Other(msg) => assert_eq!(msg, "Backup suffix cannot be a single dot"),
        _ => panic!("Expected Other error"),
    }
}

#[test]
fn test_validate_backup_suffix_accepts_valid() {
    assert!(validate_backup_suffix(".bak").is_ok());
    assert!(validate_backup_suffix(".backup").is_ok());
    assert!(validate_backup_suffix("~").is_ok());
}

#[test]
fn test_create_backup_rejects_empty_suffix() {
    let cfg = config("/work/test.txt", "", None, false);
    let result = create_backup_plan(&cfg, true, true);
    assert!(result.is_err());
    match result.unwrap_err() {
        MutxError::Other(msg) => assert!(msg.contains("Backup suffix cannot be empty")),
        _ => panic!("Expected Other error for empty suffix"),
    }
}

#[test]
fn test_create_backup_rejects_single_dot_suffix() {
    let cfg = config("/work/test.txt", ".", None, false);
    let result = create_backup_plan(&cfg, true, true);
    assert!(result.is_err());
    match result.unwrap_err() {
        MutxError::Other(msg) => assert!(msg.contains("Backup suffix cannot be a single dot")),
        _ => panic!("Expected Other error for single dot suffix"),
    }
}

#[test]
fn test_create_backup_accepts_valid_suffix() {
    let cfg = config("/work/test.txt", ".bak", None, false);
    let result = create_backup_plan(&cfg, true, true);
    assert_eq!(result.unwrap(), "/work/test.txt.bak");
}
