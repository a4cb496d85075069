//! Process-coordinated, crash-safe file-write primitives.
//!
//! The library holds the logic of the tool: lock-path derivation, lock
//! acquisition strategies, the atomic writer, backup naming, housekeeping of
//! orphaned locks and stale backups, and the error model. All filesystem
//! traffic is performed by thin callers around these functions; the functions
//! themselves work on plain values and carry contracts.

pub mod backup;
pub mod cli;
pub mod error;
pub mod housekeep;
pub mod lock;
pub mod pathname;
pub mod text;
pub mod utils;
pub mod write;

pub use backup::BackupConfig;
pub use cli::{Args, Command, HousekeepOperation};
pub use error::{AppError, ErrorKind, IoErrorInfo, IoKind, MutxError};
pub use housekeep::{clean_backups, clean_locks, CleanBackupConfig, CleanLockConfig};
pub use lock::{derive_lock_path, validate_lock_path, LockStrategy, TimeoutConfig};
pub use write::{AtomicWriter, WriteMode};
