use mutx::error::{IoErrorInfo, IoKind, MutxError};
use mutx::lock::acquisition::{
    is_lock_contention, no_wait_decision, poll_step, wait_decision, PollAction, TryLockOutcome,
    INITIAL_POLL_INTERVAL_MS,
};
use mutx::TimeoutConfig;

fn contention() -> IoErrorInfo {
    IoErrorInfo {
        kind: IoKind::WouldBlock,
        raw_os_error: Some(11),
        message: String::from("resource temporarily unavailable"),
    }
}

fn structural() -> IoErrorInfo {
    IoErrorInfo {
        kind: IoKind::PermissionDenied,
        raw_os_error: Some(13),
        message: String::from("permission denied"),
    }
}

#[test]
fn test_lock_acquire_and_release() {
    // A granted try-lock ends every strategy successfully.
    assert!(wait_decision("/tmp/l.lock", TryLockOutcome::Acquired).is_ok());
    assert!(no_wait_decision("/tmp/l.lock", TryLockOutcome::Acquired, None).is_ok());
    let config = TimeoutConfig::new(1000);
    let action = poll_step(
        "/tmp/l.lock",
        &config,
        0,
        INITIAL_POLL_INTERVAL_MS,
        TryLockOutcome::Acquired,
        None,
    );
    assert!(matches!(action, PollAction::Done));
}

#[test]
fn test_lock_no_wait_fails_when_locked() {
    let result = no_wait_decision("/tmp/l.lock", TryLockOutcome::Denied(contention()), None);
    let err = result.unwrap_err();
    assert_eq!(err.exit_code(), 2);
    let msg = err.message();
    assert!(
        msg.contains("Failed to acquire lock") || msg.contains("locked"),
        "Expected error about lock failure, got: {}",
        msg
    );
}

#[test]
fn test_lock_no_wait_structural_error() {
    let result = no_wait_decision("/tmp/l.lock", TryLockOutcome::Denied(structural()), None);
    match result.unwrap_err() {
        MutxError::LockAcquisitionFailed { path, .. } => assert_eq!(path, "/tmp/l.lock"),
        other => panic!("expected LockAcquisitionFailed, got {:?}", other),
    }
}

#[test]
fn test_lock_timeout() {
    // Contention at or past the configured duration times out with exit
    // code 2; before it, the loop sleeps.
    let config = TimeoutConfig::new(1000);
    let action = poll_step(
        "/tmp/l.lock",
        &config,
        1000,
        INITIAL_POLL_INTERVAL_MS,
        TryLockOutcome::Denied(contention()),
        None,
    );
    match action {
        PollAction::GiveUp(err) => {
            assert!(matches!(err, MutxError::LockTimeout { .. }));
            assert_eq!(err.exit_code(), 2);
        }
        other => panic!("expected GiveUp, got {:?}", other),
    }
}

#[test]
fn test_exponential_backoff_timing() {
    // Starting at 10 ms, the interval grows by half after each failed
    // attempt: 10, 15, 22, 33, 49 — and each sleep stays below the capped
    // interval plus the 100 ms jitter bound.
    let config = TimeoutConfig::new(10_000);
    let mut interval = INITIAL_POLL_INTERVAL_MS;
    let mut intervals = vec![interval];
    for _ in 0..4 {
        let action = poll_step(
            "/tmp/l.lock",
            &config,
            0,
            interval,
            TryLockOutcome::Denied(contention()),
            None,
        );
        match action {
            PollAction::Sleep { sleep_ms, next_interval_ms } => {
                let base = interval.min(config.max_poll_interval_ms);
                assert!(sleep_ms >= base && sleep_ms < base + 100);
                interval = next_interval_ms;
                intervals.push(interval);
            }
            other => panic!("expected Sleep, got {:?}", other),
        }
    }
    assert_eq!(intervals, vec![10, 15, 22, 33, 49]);
}

#[test]
fn test_max_poll_interval_respected() {
    let config = TimeoutConfig::new(10_000).with_max_interval(100);
    let action = poll_step(
        "/tmp/l.lock",
        &config,
        0,
        5000,
        TryLockOutcome::Denied(contention()),
        None,
    );
    match action {
        PollAction::Sleep { sleep_ms, .. } => {
            assert!(sleep_ms >= 100 && sleep_ms < 200);
        }
        other => panic!("expected Sleep, got {:?}", other),
    }
}

#[test]
fn test_timeout_config_defaults() {
    let config = TimeoutConfig::new(2000);
    assert_eq!(config.duration_ms, 2000);
    assert_eq!(config.max_poll_interval_ms, 1000);
    let config = config.with_max_interval(250);
    assert_eq!(config.duration_ms, 2000);
    assert_eq!(config.max_poll_interval_ms, 250);
}

#[test]
fn test_windows_sharing_codes_mean_contention() {
    let e = IoErrorInfo {
        kind: IoKind::Other,
        raw_os_error: Some(33),
        message: String::from("lock violation"),
    };
    assert!(is_lock_contention(&e, Some(33)));
    assert!(is_lock_contention(&e, Some(32)));
    assert!(!is_lock_contention(&e, Some(5)));
    assert!(!is_lock_contention(&e, None));
    assert!(is_lock_contention(&contention(), None));
}
