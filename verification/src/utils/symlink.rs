//! Symlink policy checks. The filesystem observation (an `lstat` that never
//! follows the link) is made by the caller and handed in as a plain flag; the
//! policy decision and the error it produces live here. A path that does not
//! exist is reported as not being a symlink.

use vstd::prelude::*;
use vstd::string::StringExecFns;

use crate::error::MutxError;

verus! {

/// Refuses `path` when it is a symlink and the policy does not follow
/// symlinks at outputs and inputs.
pub fn check_symlink(path: &str, is_symlink: bool, follow_symlinks: bool) -> (r: Result<
    (),
    MutxError,
>)
    ensures
        r is Ok <==> (!is_symlink || follow_symlinks),
        r matches Err(e) ==> e matches MutxError::SymlinkNotAllowed { path: p } && p@ == path@,
{
    if is_symlink && !follow_symlinks {
        Err(MutxError::SymlinkNotAllowed { path: String::from_str(path) })
    } else {
        Ok(())
    }
}

/// Refuses `path` when it is a symlink and the stricter lock-path policy does
/// not follow symlinks at lock files.
pub fn check_lock_symlink(path: &str, is_symlink: bool, follow_lock_symlinks: bool) -> (r: Result<
    (),
    MutxError,
>)
    ensures
        r is Ok <==> (!is_symlink || follow_lock_symlinks),
        r matches Err(e) ==> e matches MutxError::LockSymlinkNotAllowed { path: p } && p@ == path@,
{
    if is_symlink && !follow_lock_symlinks {
        Err(MutxError::LockSymlinkNotAllowed { path: String::from_str(path) })
    } else {
        Ok(())
    }
}

} // verus!
