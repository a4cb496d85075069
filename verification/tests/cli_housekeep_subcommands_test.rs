use mutx::cli::housekeep_all_dirs;
use mutx::housekeep::{clean_backups, clean_locks, CleanBackupConfig, CleanLockConfig};
use mutx::MutxError;

const NOW: u64 = 1_800_000_000;

#[test]
fn test_housekeep_locks_subcommand() {
    // A dry-run lock scan over a directory with nothing to clean reports
    // nothing and succeeds.
    let config = CleanLockConfig {
        dir: String::from("/tmp"),
        recursive: false,
        older_than: None,
        dry_run: true,
    };
    let cleaned = clean_locks(&config, &Vec::new(), NOW);
    assert_eq!(cleaned.len(), 0);
}

#[test]
fn test_housekeep_backups_subcommand() {
    let config = CleanBackupConfig {
        dir: String::from("/tmp"),
        recursive: false,
        older_than: None,
        keep_newest: None,
        suffix: String::from(".mutx.backup"),
        dry_run: true,
    };
    let cleaned = clean_backups(&config, &Vec::new(), NOW);
    assert_eq!(cleaned.len(), 0);
}

#[test]
fn test_housekeep_all_with_single_dir() {
    let (locks, backups) =
        housekeep_all_dirs(Some(String::from("/tmp/scan")), None, None).unwrap();
    assert_eq!(locks, "/tmp/scan");
    assert_eq!(backups, "/tmp/scan");
}

#[test]
fn test_housekeep_all_with_separate_dirs() {
    let (locks, backups) = housekeep_all_dirs(
        None,
        Some(String::from("/tmp/locks")),
        Some(String::from("/tmp/backups")),
    )
    .unwrap();
    assert_eq!(locks, "/tmp/locks");
    assert_eq!(backups, "/tmp/backups");
}

#[test]
fn test_housekeep_all_requires_dir_or_both_flags() {
    let result = housekeep_all_dirs(None, None, None);
    match result.unwrap_err() {
        MutxError::Other(msg) => {
            assert_eq!(msg, "Must provide either DIR or both --locks-dir and --backups-dir")
        }
        other => panic!("expected Other, got {:?}", other),
    }
    assert!(housekeep_all_dirs(None, Some(String::from("/l")), None).is_err());
    assert!(housekeep_all_dirs(None, None, Some(String::from("/b"))).is_err());
}

#[test]
fn test_housekeep_all_flags_override_dir() {
    let (locks, backups) = housekeep_all_dirs(
        Some(String::from("/d")),
        Some(String::from("/l")),
        None,
    )
    .unwrap();
    assert_eq!(locks, "/l");
    assert_eq!(backups, "/d");
}
