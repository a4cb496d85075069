use mutx::error::{IoErrorInfo, IoKind, MutxError};
use mutx::lock::acquisition::{no_wait_decision, poll_step, PollAction, TryLockOutcome};
use mutx::{AtomicWriter, TimeoutConfig, WriteMode};

fn contention() -> IoErrorInfo {
    IoErrorInfo {
        kind: IoKind::WouldBlock,
        raw_os_error: None,
        message: String::from("resource temporarily unavailable"),
    }
}

#[test]
fn test_exit_code_0_on_success() {
    // The whole write path succeeds: lock granted, bytes written, commit
    // done — nothing maps to a nonzero exit code.
    let output = "/tmp/mutx_exit_code_test.txt";
    let lock =
        mutx::derive_lock_path(output, false, Some(output), true, None, "/tmp").unwrap();
    mutx::validate_lock_path(lock.as_str(), output).unwrap();
    no_wait_decision(lock.as_str(), TryLockOutcome::Acquired, None).unwrap();
    let mut writer = AtomicWriter::new(output, WriteMode::Simple).unwrap();
    writer.write_all(b"data").unwrap();
    writer.commit().unwrap();
}

#[test]
fn test_exit_code_1_on_general_error() {
    // A missing OUTPUT argument is a general error.
    let err = MutxError::Other(String::from("OUTPUT argument required"));
    assert_eq!(err.exit_code(), 1);
}

#[test]
fn test_exit_code_2_on_lock_timeout() {
    let config = TimeoutConfig::new(1);
    let action = poll_step(
        "/tmp/held.lock",
        &config,
        1,
        10,
        TryLockOutcome::Denied(contention()),
        None,
    );
    match action {
        PollAction::GiveUp(err) => assert_eq!(err.exit_code(), 2),
        other => panic!("expected GiveUp, got {:?}", other),
    }
}

#[test]
fn test_exit_code_2_on_no_wait() {
    let err =
        no_wait_decision("/tmp/held.lock", TryLockOutcome::Denied(contention()), None).unwrap_err();
    assert_eq!(err.exit_code(), 2);
}

#[test]
fn test_exit_code_3_on_interrupt() {
    assert_eq!(MutxError::Interrupted.exit_code(), 3);
}
