//! The error model of the library.
//!
//! Paths are carried as plain strings and I/O failure causes as
//! [`IoErrorInfo`], a value holding what the logic reads of an OS error: its
//! kind, its raw code where one exists, and its rendered message.

use vstd::prelude::*;
use vstd::string::StringExecFns;

verus! {

/// The kinds of OS I/O failure that the library's decisions distinguish.
#[derive(Clone, Copy, Debug, PartialEq, Eq, Structural)]
pub enum IoKind {
    NotFound,
    PermissionDenied,
    WouldBlock,
    Interrupted,
    AlreadyExists,
    Other,
}

/// What the logic reads of an OS error: kind, raw code, rendered message.
#[derive(Clone, Debug)]
pub struct IoErrorInfo {
    pub kind: IoKind,
    pub raw_os_error: Option<i32>,
    pub message: String,
}

/// Every failure the library can report, with the data each one carries.
#[derive(Clone, Debug)]
pub enum MutxError {
    LockTimeout { path: String, duration_ms: u64 },
    LockWouldBlock(String),
    LockCreationFailed { path: String, source: IoErrorInfo },
    LockAcquisitionFailed { path: String, source: IoErrorInfo },
    WriteFailed { path: String, source: IoErrorInfo },
    BackupFailed { path: String, source: IoErrorInfo },
    ReadFailed { path: String, source: IoErrorInfo },
    InvalidDuration { input: String, message: String },
    InvalidPermissions { input: String },
    PathNotFound(String),
    NotAFile(String),
    NotADirectory(String),
    Interrupted,
    PermissionDenied(String),
    SymlinkNotAllowed { path: String },
    LockSymlinkNotAllowed { path: String },
    LockPathCollision { lock_path: String, output_path: String },
    CacheDirectoryFailed { path: String, source: IoErrorInfo },
    Io(IoErrorInfo),
    Other(String),
}

impl MutxError {
    /// The process exit code a failure maps to: 2 for lock contention and
    /// timeout, 3 for an interruption, 1 for everything else.
    pub open spec fn spec_exit_code(&self) -> i32 {
        match self {
            MutxError::LockTimeout { .. } => 2,
            MutxError::LockWouldBlock(_) => 2,
            MutxError::Interrupted => 3,
            MutxError::Io(e) => if e.kind is Interrupted {
                3
            } else {
                1
            },
            _ => 1,
        }
    }

    pub fn exit_code(&self) -> (r: i32)
        ensures
            r == self.spec_exit_code(),
    {
        match self {
            MutxError::LockTimeout { .. } | MutxError::LockWouldBlock(_) => 2,
            MutxError::Interrupted => 3,
            MutxError::Io(e) => {
                if e.kind == IoKind::Interrupted {
                    3
                } else {
                    1
                }
            },
            _ => 1,
        }
    }

    /// A lock timeout with no path recorded.
    pub fn lock_timeout(duration_ms: u64) -> (r: MutxError)
        ensures
            r matches MutxError::LockTimeout { path, duration_ms: d } && path@ == Seq::<
                char,
            >::empty() && d == duration_ms,
    {
        MutxError::LockTimeout { path: String::new(), duration_ms }
    }

    pub fn lock_would_block(path: &str) -> (r: MutxError)
        ensures
            r matches MutxError::LockWouldBlock(p) && p@ == path@,
    {
        MutxError::LockWouldBlock(String::from_str(path))
    }

    /// The single-line human-readable message of a failure.
    pub open spec fn spec_message(&self) -> Seq<char> {
        match self {
            MutxError::LockTimeout { path, .. } => "Failed to acquire lock on "@ + path@
                + ": timeout"@,
            MutxError::LockWouldBlock(path) => "Failed to acquire lock on "@ + path@
                + ": file is locked by another process"@,
            MutxError::LockCreationFailed { path, source } => "Failed to create lock file "@
                + path@ + ": "@ + source.message@,
            MutxError::LockAcquisitionFailed { path, source } => "Failed to acquire lock on "@
                + path@ + ": "@ + source.message@,
            MutxError::WriteFailed { path, source } => "Failed to write to "@ + path@ + ": "@
                + source.message@,
            MutxError::BackupFailed { path, source } => "Failed to create backup of "@ + path@
                + ": "@ + source.message@,
            MutxError::ReadFailed { path, source } => "Failed to read from "@ + path@ + ": "@
                + source.message@,
            MutxError::InvalidDuration { input, message } => "Invalid duration format '"@ + input@
                + "': "@ + message@,
            MutxError::InvalidPermissions { input } => "Invalid file permissions '"@ + input@
                + "': must be octal (e.g., 0644)"@,
            MutxError::PathNotFound(path) => "Path does not exist: "@ + path@,
            MutxError::NotAFile(path) => "Path is not a file: "@ + path@,
            MutxError::NotADirectory(path) => "Path is not a directory: "@ + path@,
            MutxError::Interrupted => "Operation interrupted"@,
            MutxError::PermissionDenied(detail) => "Permission denied: "@ + detail@,
            MutxError::SymlinkNotAllowed { path } => "Path is a symlink (not followed by default): "@
                + path@,
            MutxError::LockSymlinkNotAllowed { path } => "Lock path is a symlink (not followed by default): "@
                + path@,
            MutxError::LockPathCollision { lock_path, output_path } => "Lock path "@ + lock_path@
                + " collides with output path "@ + output_path@,
            MutxError::CacheDirectoryFailed { path, source } => "Failed to create cache directory "@
                + path@ + ": "@ + source.message@,
            MutxError::Io(e) => e.message@,
            MutxError::Other(message) => message@,
        }
    }

    /// Renders the failure as its single-line message.
    pub fn message(&self) -> (r: String)
        ensures
            r@ == self.spec_message(),
    {
        let r = match self {
            MutxError::LockTimeout { path, .. } => join3(
                "Failed to acquire lock on ",
                path.as_str(),
                ": timeout",
            ),
            MutxError::LockWouldBlock(path) => join3(
                "Failed to acquire lock on ",
                path.as_str(),
                ": file is locked by another process",
            ),
            MutxError::LockCreationFailed { path, source } => join3(
                "Failed to create lock file ",
                path.as_str(),
                ": ",
            ).concat(source.message.as_str()),
            MutxError::LockAcquisitionFailed { path, source } => join3(
                "Failed to acquire lock on ",
                path.as_str(),
                ": ",
            ).concat(source.message.as_str()),
            MutxError::WriteFailed { path, source } => join3(
                "Failed to write to ",
                path.as_str(),
                ": ",
            ).concat(source.message.as_str()),
            MutxError::BackupFailed { path, source } => join3(
                "Failed to create backup of ",
                path.as_str(),
                ": ",
            ).concat(source.message.as_str()),
            MutxError::ReadFailed { path, source } => join3(
                "Failed to read from ",
                path.as_str(),
                ": ",
            ).concat(source.message.as_str()),
            MutxError::InvalidDuration { input, message } => join3(
                "Invalid duration format '",
                input.as_str(),
                "': ",
            ).concat(message.as_str()),
            MutxError::InvalidPermissions { input } => join3(
                "Invalid file permissions '",
                input.as_str(),
                "': must be octal (e.g., 0644)",
            ),
            MutxError::PathNotFound(path) => join3("Path does not exist: ", path.as_str(), ""),
            MutxError::NotAFile(path) => join3("Path is not a file: ", path.as_str(), ""),
            MutxError::NotADirectory(path) => join3("Path is not a directory: ", path.as_str(), ""),
            MutxError::Interrupted => String::from_str("Operation interrupted"),
            MutxError::PermissionDenied(detail) => join3("Permission denied: ", detail.as_str(), ""),
            MutxError::SymlinkNotAllowed { path } => join3(
                "Path is a symlink (not followed by default): ",
                path.as_str(),
                "",
            ),
            MutxError::LockSymlinkNotAllowed { path } => join3(
                "Lock path is a symlink (not followed by default): ",
                path.as_str(),
                "",
            ),
            MutxError::LockPathCollision { lock_path, output_path } => join3(
                "Lock path ",
                lock_path.as_str(),
                " collides with output path ",
            ).concat(output_path.as_str()),
            MutxError::CacheDirectoryFailed { path, source } => join3(
                "Failed to create cache directory ",
                path.as_str(),
                ": ",
            ).concat(source.message.as_str()),
            MutxError::Io(e) => e.message.clone(),
            MutxError::Other(message) => message.clone(),
        };
        proof {
            reveal_strlit("");
            assert(r@ =~= self.spec_message());
        }
        r
    }
}

/// The three strings laid end to end.
fn join3(a: &str, b: &str, c: &str) -> (r: String)
    ensures
        r@ == a@ + b@ + c@,
{
    let mut s = String::from_str(a);
    s.append(b);
    s.append(c);
    proof {
        assert(s@ =~= a@ + b@ + c@);
    }
    s
}

/// The coarse classification an [`AppError`] carries.
#[derive(Clone, Copy, Debug, PartialEq, Eq, Structural)]
pub enum ErrorKind {
    LockFailed,
    Timeout,
    PermissionDenied,
    Interrupted,
    General,
}

/// A top-level error classified from an underlying error's message.
#[derive(Debug)]
pub struct AppError {
    kind: ErrorKind,
    message: String,
}

/// The classification of a lowered error message: lock-plus-timeout wording
/// means a timeout; other lock wording a lock failure; then permission
/// denial; then an interruption; anything else is general.
pub open spec fn spec_classify(m: Seq<char>) -> ErrorKind {
    if crate::text::spec_contains(m, "lock"@) && crate::text::spec_contains(m, "timeout"@) {
        ErrorKind::Timeout
    } else if crate::text::spec_contains(m, "failed to acquire lock"@) || crate::text::spec_contains(
        m,
        "locked"@,
    ) || crate::text::spec_contains(m, "would block"@) {
        ErrorKind::LockFailed
    } else if crate::text::spec_contains(m, "permission denied"@) {
        ErrorKind::PermissionDenied
    } else if crate::text::spec_contains(m, "interrupt"@) {
        ErrorKind::Interrupted
    } else {
        ErrorKind::General
    }
}

/// Classifies a lowered error message, as [`spec_classify`] describes it.
pub fn classify_error_message(m: &str) -> (r: ErrorKind)
    ensures
        r == spec_classify(m@),
{
    if crate::text::str_contains(m, "lock") && crate::text::str_contains(m, "timeout") {
        ErrorKind::Timeout
    } else if crate::text::str_contains(m, "failed to acquire lock") || crate::text::str_contains(
        m,
        "locked",
    ) || crate::text::str_contains(m, "would block") {
        ErrorKind::LockFailed
    } else if crate::text::str_contains(m, "permission denied") {
        ErrorKind::PermissionDenied
    } else if crate::text::str_contains(m, "interrupt") {
        ErrorKind::Interrupted
    } else {
        ErrorKind::General
    }
}

/// The exit code an [`ErrorKind`] maps to.
pub open spec fn spec_app_exit_code(kind: ErrorKind) -> i32 {
    match kind {
        ErrorKind::LockFailed => 2,
        ErrorKind::Timeout => 2,
        ErrorKind::Interrupted => 3,
        ErrorKind::PermissionDenied => 1,
        ErrorKind::General => 1,
    }
}

impl AppError {
    /// The classification of this error.
    pub closed spec fn spec_kind(&self) -> ErrorKind {
        self.kind
    }

    /// The underlying error's message.
    pub closed spec fn spec_app_message(&self) -> Seq<char> {
        self.message@
    }

    /// Wraps an underlying error under the given classification.
    pub fn new(kind: ErrorKind, source: anyhow::Error) -> (r: AppError)
        ensures
            r.spec_kind() == kind,
    {
        AppError { kind, message: anyhow_message(&source) }
    }

    /// The process exit code this error maps to: 2 for lock failures and
    /// timeouts, 3 for an interruption, 1 for everything else.
    pub fn exit_code(&self) -> (r: i32)
        ensures
            r == spec_app_exit_code(self.spec_kind()),
    {
        match self.kind {
            ErrorKind::LockFailed | ErrorKind::Timeout => 2,
            ErrorKind::Interrupted => 3,
            ErrorKind::PermissionDenied | ErrorKind::General => 1,
        }
    }

    /// Classifies an underlying error by its lowered message, as
    /// [`spec_classify`] describes it.
    pub fn from_anyhow(err: anyhow::Error) -> (r: AppError)
        ensures
            r.spec_kind() == spec_classify(crate::text::lower_of(r.spec_app_message())),
    {
        let message = anyhow_message(&err);
        let lowered = crate::text::lowercase(message.as_str());
        let kind = classify_error_message(lowered.as_str());
        AppError { kind, message }
    }

    /// The underlying error's message, for display.
    pub fn message(&self) -> (r: String)
        ensures
            r@ == self.spec_app_message(),
    {
        self.message.clone()
    }
}

#[verifier::external_type_specification]
#[verifier::external_body]
pub struct ExAnyhowError(anyhow::Error);

/// Relies on anyhow::Error's Display: renders the error's top-level message.
#[verifier::external_body]
fn anyhow_message(e: &anyhow::Error) -> String {
    format!("{}", e)
}

#[verifier::external_type_specification]
#[verifier::external_body]
pub struct ExIoError(std::io::Error);

/// Relies on std::io::Error's accessors (`kind`, `raw_os_error`, `Display`):
/// reads an OS error into the plain value the library's decisions use.
#[verifier::external_body]
pub fn io_error_info(e: &std::io::Error) -> IoErrorInfo {
    let kind = match e.kind() {
        std::io::ErrorKind::NotFound => IoKind::NotFound,
        std::io::ErrorKind::PermissionDenied => IoKind::PermissionDenied,
        std::io::ErrorKind::WouldBlock => IoKind::WouldBlock,
        std::io::ErrorKind::Interrupted => IoKind::Interrupted,
        std::io::ErrorKind::AlreadyExists => IoKind::AlreadyExists,
        _ => IoKind::Other,
    };
    IoErrorInfo { kind, raw_os_error: e.raw_os_error(), message: format!("{}", e) }
}

impl From<IoErrorInfo> for MutxError {
    fn from(e: IoErrorInfo) -> (r: MutxError) {
        MutxError::Io(e)
    }
}

impl vstd::std_specs::convert::FromSpecImpl<IoErrorInfo> for MutxError {
    open spec fn obeys_from_spec() -> bool {
        true
    }

    open spec fn from_spec(e: IoErrorInfo) -> MutxError {
        MutxError::Io(e)
    }
}

} // verus!
