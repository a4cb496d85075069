//! Lock-acquisition strategies and the decisions of the bounded-poll loop.
//! The caller opens the lock file and asks the OS for the advisory lock; the
//! strategy selection, contention classification, backoff, jitter and
//! timeout decisions live here.

use vstd::prelude::*;

use crate::error::{IoErrorInfo, IoKind, MutxError};
use vstd::string::StringExecFns;

verus! {

/// The shape of a bounded-poll acquisition: how long to keep trying, and the
/// cap on a single sleep.
#[derive(Clone, Debug)]
pub struct TimeoutConfig {
    pub duration_ms: u64,
    pub max_poll_interval_ms: u64,
}

/// The default cap on a single poll sleep.
pub const DEFAULT_MAX_POLL_INTERVAL_MS: u64 = 1000;

/// The poll interval of the first retry.
pub const INITIAL_POLL_INTERVAL_MS: u64 = 10;

impl TimeoutConfig {
    /// A bounded poll of `duration_ms` with the default sleep cap.
    pub fn new(duration_ms: u64) -> (r: TimeoutConfig)
        ensures
            r.duration_ms == duration_ms,
            r.max_poll_interval_ms == DEFAULT_MAX_POLL_INTERVAL_MS,
    {
        TimeoutConfig { duration_ms, max_poll_interval_ms: DEFAULT_MAX_POLL_INTERVAL_MS }
    }

    /// The same poll with the sleep cap replaced.
    pub fn with_max_interval(self, max_interval_ms: u64) -> (r: TimeoutConfig)
        ensures
            r.duration_ms == self.duration_ms,
            r.max_poll_interval_ms == max_interval_ms,
    {
        TimeoutConfig { duration_ms: self.duration_ms, max_poll_interval_ms: max_interval_ms }
    }
}

/// The three ways to wait for the lock: block, fail fast, or poll with a
/// bounded timeout.
#[derive(Clone, Debug)]
pub enum LockStrategy {
    Wait,
    NoWait,
    Timeout(TimeoutConfig),
}

/// An OS error means contention when its kind is `WouldBlock`, or when the
/// platform reports one of the two sharing-violation codes that the caller
/// passes through on Windows (32 and 33); both mean another holder.
pub open spec fn spec_lock_contention(kind: IoKind, windows_code: Option<i32>) -> bool {
    kind is WouldBlock || windows_code == Some(33i32) || windows_code == Some(32i32)
}

/// Classifies an OS error from a try-lock: contention, or structural
/// failure. `windows_code` is the raw OS code, passed only on Windows.
pub fn is_lock_contention(e: &IoErrorInfo, windows_code: Option<i32>) -> (r: bool)
    ensures
        r == spec_lock_contention(e.kind, windows_code),
{
    if e.kind == IoKind::WouldBlock {
        return true;
    }
    match windows_code {
        Some(code) => code == 33 || code == 32,
        None => false,
    }
}

/// What one try-lock request came back with.
#[derive(Clone, Debug)]
pub enum TryLockOutcome {
    Acquired,
    Denied(IoErrorInfo),
}

/// What the poll loop does next: stop with the lock held, sleep and try
/// again, or give up with an error.
#[derive(Clone, Debug)]
pub enum PollAction {
    Done,
    Sleep { sleep_ms: u64, next_interval_ms: u64 },
    GiveUp(MutxError),
}

/// The smaller of two durations.
pub open spec fn spec_min64(a: u64, b: u64) -> u64 {
    if a <= b {
        a
    } else {
        b
    }
}

/// The base of the next sleep: the current interval capped by the configured
/// poll cap, and clamped so that adding the jitter cannot overflow.
pub open spec fn spec_sleep_base(config: &TimeoutConfig, interval_ms: u64) -> u64 {
    spec_min64(spec_min64(interval_ms, config.max_poll_interval_ms), (u64::MAX - 100) as u64)
}

/// The poll interval after one failed attempt: one-and-a-half times the
/// current one, saturating.
pub open spec fn spec_next_interval(interval_ms: u64) -> u64 {
    if interval_ms + interval_ms / 2 > u64::MAX {
        u64::MAX
    } else {
        (interval_ms + interval_ms / 2) as u64
    }
}

/// Relies on rand::random_range: a value drawn uniformly from `[0, 100)`.
#[verifier::external_body]
fn random_jitter_ms() -> (r: u64)
    ensures
        r < 100,
{
    rand::random_range(0u64..100)
}

/// One decision of the bounded-poll loop, after a try-lock came back.
///
/// The lock acquired ends the loop. A denial that is not contention gives up
/// with `LockAcquisitionFailed`. Contention at or past the configured
/// duration gives up with `LockTimeout` — so a timeout is never reported
/// before the configured duration has elapsed. Contention before that asks
/// for a sleep of the capped interval plus a jitter below 100 ms, and grows
/// the interval by half.
pub fn poll_step(
    lock_path: &str,
    config: &TimeoutConfig,
    elapsed_ms: u64,
    interval_ms: u64,
    outcome: TryLockOutcome,
    windows_code: Option<i32>,
) -> (r: PollAction)
    ensures
        outcome is Acquired ==> r is Done,
        outcome is Denied && !spec_lock_contention(outcome->Denied_0.kind, windows_code) ==> (
        r is GiveUp && r->GiveUp_0 is LockAcquisitionFailed
            && r->GiveUp_0->LockAcquisitionFailed_path@ == lock_path@
            && r->GiveUp_0->LockAcquisitionFailed_source == outcome->Denied_0),
        outcome is Denied && spec_lock_contention(outcome->Denied_0.kind, windows_code)
            && elapsed_ms >= config.duration_ms ==> (r is GiveUp && r->GiveUp_0 is LockTimeout
            && r->GiveUp_0->LockTimeout_path@ == lock_path@
            && r->GiveUp_0->LockTimeout_duration_ms == config.duration_ms),
        outcome is Denied && spec_lock_contention(outcome->Denied_0.kind, windows_code)
            && elapsed_ms < config.duration_ms ==> (r is Sleep
            && spec_sleep_base(config, interval_ms) <= r->Sleep_sleep_ms
            && r->Sleep_sleep_ms < spec_sleep_base(config, interval_ms) + 100
            && r->Sleep_next_interval_ms == spec_next_interval(interval_ms)),
{
    let e = match outcome {
        TryLockOutcome::Acquired => {
            return PollAction::Done;
        },
        TryLockOutcome::Denied(e) => e,
    };
    if !is_lock_contention(&e, windows_code) {
        return PollAction::GiveUp(
            MutxError::LockAcquisitionFailed { path: String::from_str(lock_path), source: e },
        );
    }
    if elapsed_ms >= config.duration_ms {
        return PollAction::GiveUp(
            MutxError::LockTimeout {
                path: String::from_str(lock_path),
                duration_ms: config.duration_ms,
            },
        );
    }
    let mut base = if interval_ms <= config.max_poll_interval_ms {
        interval_ms
    } else {
        config.max_poll_interval_ms
    };
    if base > u64::MAX - 100 {
        base = u64::MAX - 100;
    }
    let jitter = random_jitter_ms();
    let next = if interval_ms > u64::MAX - interval_ms / 2 {
        u64::MAX
    } else {
        interval_ms + interval_ms / 2
    };
    PollAction::Sleep { sleep_ms: base + jitter, next_interval_ms: next }
}

/// The decision of a fail-fast acquisition: the lock, or `LockWouldBlock` on
/// contention, or `LockAcquisitionFailed` on any other denial.
pub fn no_wait_decision(lock_path: &str, outcome: TryLockOutcome, windows_code: Option<i32>) -> (r:
    Result<(), MutxError>)
    ensures
        outcome is Acquired <==> r is Ok,
        outcome is Denied && spec_lock_contention(outcome->Denied_0.kind, windows_code) ==> (
        r is Err && r->Err_0 is LockWouldBlock && r->Err_0->LockWouldBlock_0@ == lock_path@),
        outcome is Denied && !spec_lock_contention(outcome->Denied_0.kind, windows_code) ==> (
        r is Err && r->Err_0 is LockAcquisitionFailed
            && r->Err_0->LockAcquisitionFailed_path@ == lock_path@
            && r->Err_0->LockAcquisitionFailed_source == outcome->Denied_0),
{
    match outcome {
        TryLockOutcome::Acquired => Ok(()),
        TryLockOutcome::Denied(e) => {
            if is_lock_contention(&e, windows_code) {
                Err(MutxError::LockWouldBlock(String::from_str(lock_path)))
            } else {
                Err(
                    MutxError::LockAcquisitionFailed {
                        path: String::from_str(lock_path),
                        source: e,
                    },
                )
            }
        },
    }
}

/// The decision of a blocking acquisition: the lock, or
/// `LockAcquisitionFailed` carrying what the OS said.
pub fn wait_decision(lock_path: &str, outcome: TryLockOutcome) -> (r: Result<(), MutxError>)
    ensures
        outcome is Acquired <==> r is Ok,
        outcome is Denied ==> (r is Err && r->Err_0 is LockAcquisitionFailed
            && r->Err_0->LockAcquisitionFailed_path@ == lock_path@
            && r->Err_0->LockAcquisitionFailed_source == outcome->Denied_0),
{
    match outcome {
        TryLockOutcome::Acquired => Ok(()),
        TryLockOutcome::Denied(e) => Err(
            MutxError::LockAcquisitionFailed { path: String::from_str(lock_path), source: e },
        ),
    }
}

/// The elapsed time when a bounded poll gives up is bounded: the loop only
/// continues while the elapsed time is below the configured duration, and
/// each sleep it then takes is below the poll cap plus the 100 ms jitter
/// bound — so the elapsed time at the timeout check after one more sleep
/// stays below `duration + max_poll_interval + 100 ms`. Together with
/// [`poll_step`] reporting `LockTimeout` only at or past the duration, the
/// elapsed time of a timed-out poll lies in
/// `[duration, duration + max_poll_interval + 100)`.
pub proof fn lemma_poll_elapsed_bound(
    config: TimeoutConfig,
    prev_elapsed_ms: u64,
    sleep_ms: u64,
    interval_ms: u64,
)
    requires
        prev_elapsed_ms < config.duration_ms,
        spec_sleep_base(&config, interval_ms) <= sleep_ms,
        sleep_ms < spec_sleep_base(&config, interval_ms) + 100,
    ensures
        prev_elapsed_ms + sleep_ms < config.duration_ms + config.max_poll_interval_ms + 100,
{
    assert(spec_sleep_base(&config, interval_ms) <= config.max_poll_interval_ms);
}

} // verus!
