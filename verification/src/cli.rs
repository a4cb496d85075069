//! The command surface as plain data, and the decisions of the dispatcher.
//! Argument parsing itself is done by the caller; it fills these types and
//! asks the functions here which way to go.

use vstd::prelude::*;
use vstd::string::StringExecFns;

use crate::error::MutxError;
use crate::lock::acquisition::{LockStrategy, TimeoutConfig, DEFAULT_MAX_POLL_INTERVAL_MS};

verus! {

/// One housekeeping request: orphaned locks, stale backups, or both — the
/// latter over one root or two separate ones.
#[derive(Clone, Debug)]
pub enum HousekeepOperation {
    Locks {
        dir: Option<String>,
        recursive: bool,
        older_than: Option<String>,
        dry_run: bool,
        verbose: bool,
    },
    Backups {
        dir: Option<String>,
        recursive: bool,
        older_than: Option<String>,
        keep_newest: Option<usize>,
        suffix: String,
        dry_run: bool,
        verbose: bool,
    },
    All {
        dir: Option<String>,
        locks_dir: Option<String>,
        backups_dir: Option<String>,
        recursive: bool,
        older_than: Option<String>,
        keep_newest: Option<usize>,
        suffix: String,
        dry_run: bool,
        verbose: bool,
    },
}

/// A top-level command: an explicit write, or housekeeping.
#[derive(Clone, Debug)]
pub enum Command {
    Write {
        output: String,
        input: Option<String>,
        stream: bool,
        no_wait: bool,
        timeout: Option<u64>,
        max_poll_interval: Option<u64>,
        backup: bool,
        backup_suffix: String,
        backup_dir: Option<String>,
        backup_timestamp: bool,
        lock_file: Option<String>,
        follow_symlinks: bool,
        follow_lock_symlinks: bool,
        verbose: u8,
    },
    Housekeep { operation: HousekeepOperation },
}

/// The whole command line: an optional subcommand, and the write options of
/// the implicit form.
#[derive(Clone, Debug)]
pub struct Args {
    pub command: Option<Command>,
    pub output: Option<String>,
    pub input: Option<String>,
    pub stream: bool,
    pub no_wait: bool,
    pub timeout: Option<u64>,
    pub max_poll_interval: Option<u64>,
    pub backup: bool,
    pub backup_suffix: String,
    pub backup_dir: Option<String>,
    pub backup_timestamp: bool,
    pub lock_file: Option<String>,
    pub follow_symlinks: bool,
    pub follow_lock_symlinks: bool,
    pub verbose: u8,
}

/// The lock strategy a write uses: fail-fast under `no_wait`; a bounded poll
/// when a timeout is given, with the configured or default sleep cap; else
/// blocking.
pub fn choose_strategy(no_wait: bool, timeout_ms: Option<u64>, max_poll_interval_ms: Option<u64>)
    -> (r: LockStrategy)
    ensures
        no_wait ==> r is NoWait,
        !no_wait && timeout_ms is Some ==> (r is Timeout && r->Timeout_0.duration_ms
            == timeout_ms->Some_0 && r->Timeout_0.max_poll_interval_ms == (
        match max_poll_interval_ms {
            Some(m) => m,
            None => DEFAULT_MAX_POLL_INTERVAL_MS,
        })),
        !no_wait && timeout_ms is None ==> r is Wait,
{
    if no_wait {
        LockStrategy::NoWait
    } else {
        match timeout_ms {
            Some(t) => {
                let mut config = TimeoutConfig::new(t);
                match max_poll_interval_ms {
                    Some(m) => {
                        config = config.with_max_interval(m);
                    },
                    None => {},
                }
                LockStrategy::Timeout(config)
            },
            None => LockStrategy::Wait,
        }
    }
}

/// The effective symlink policies of a write: following lock symlinks
/// implies following output and input symlinks.
pub fn effective_symlink_policy(follow_symlinks: bool, follow_lock_symlinks: bool) -> (r: (
    bool,
    bool,
))
    ensures
        r.0 == (follow_symlinks || follow_lock_symlinks),
        r.1 == follow_lock_symlinks,
{
    (follow_symlinks || follow_lock_symlinks, follow_lock_symlinks)
}

/// The two roots of a combined housekeeping run: either one directory for
/// both, or both given separately; anything less is refused.
pub fn housekeep_all_dirs(
    dir: Option<String>,
    locks_dir: Option<String>,
    backups_dir: Option<String>,
) -> (r: Result<(String, String), MutxError>)
    ensures
        r is Ok <==> (dir is Some || (locks_dir is Some && backups_dir is Some)),
        r matches Ok(p) ==> p.0@ == (match locks_dir {
            Some(l) => l@,
            None => dir->Some_0@,
        }) && p.1@ == (match backups_dir {
            Some(b) => b@,
            None => dir->Some_0@,
        }),
        r matches Err(e) ==> (e matches MutxError::Other(m) && m@
            == "Must provide either DIR or both --locks-dir and --backups-dir"@),
{
    if dir.is_none() && (locks_dir.is_none() || backups_dir.is_none()) {
        return Err(
            MutxError::Other(
                String::from_str("Must provide either DIR or both --locks-dir and --backups-dir"),
            ),
        );
    }
    let locks_target = match locks_dir {
        Some(l) => l,
        None => match &dir {
            Some(d) => d.clone(),
            None => String::new(),
        },
    };
    let backups_target = match backups_dir {
        Some(b) => b,
        None => match &dir {
            Some(d) => d.clone(),
            None => String::new(),
        },
    };
    Ok((locks_target, backups_target))
}

} // verus!
