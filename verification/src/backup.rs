//! Backup naming and validation. The backup file itself is copied and renamed
//! by the caller; here live the suffix rules, the name composition, and the
//! full pre-copy plan (validation plus destination path).

use vstd::prelude::*;
use vstd::string::{StrSliceExecFns, StringExecFns};

use crate::error::MutxError;
use crate::pathname::{join_path, file_name, parent_of, spec_file_name, spec_join_path, spec_parent};

verus! {

/// How a backup of one file is to be made: its source path, the suffix of the
/// backup's name, an optional destination directory, and whether the name
/// carries a timestamp.
#[derive(Clone, Debug)]
pub struct BackupConfig {
    pub source: String,
    pub suffix: String,
    pub directory: Option<String>,
    pub timestamp: bool,
}

/// A suffix is refused exactly when it is empty or the single character `.`.
pub open spec fn suffix_ok(suffix: Seq<char>) -> bool {
    suffix.len() > 0 && !(suffix.len() == 1 && suffix[0] == '.')
}

/// Refuses the empty suffix and the bare-dot suffix, which would make the
/// backup collide with or hide the source.
pub fn validate_backup_suffix(suffix: &str) -> (r: Result<(), MutxError>)
    ensures
        r is Ok <==> suffix_ok(suffix@),
        suffix@.len() == 0 ==> (r matches Err(e) && e matches MutxError::Other(m) && m@
            == "Backup suffix cannot be empty"@),
        suffix@.len() == 1 && suffix@[0] == '.' ==> (r matches Err(e) && e matches
            MutxError::Other(m) && m@ == "Backup suffix cannot be a single dot"@),
{
    let n = suffix.unicode_len();
    if n == 0 {
        Err(MutxError::Other(String::from_str("Backup suffix cannot be empty")))
    } else if n == 1 && suffix.get_char(0) == '.' {
        Err(MutxError::Other(String::from_str("Backup suffix cannot be a single dot")))
    } else {
        Ok(())
    }
}

/// The backup's file name: the source's basename, an optional dotted
/// timestamp, and the suffix.
pub open spec fn spec_backup_file_name(
    base: Seq<char>,
    suffix: Seq<char>,
    timestamp: Option<Seq<char>>,
) -> Seq<char> {
    match timestamp {
        Some(t) => base + "."@ + t + suffix,
        None => base + suffix,
    }
}

/// Composes the backup's file name from the source's basename, the suffix,
/// and an optional timestamp.
pub fn backup_file_name(base: &str, suffix: &str, timestamp: Option<&str>) -> (r: String)
    ensures
        r@ == spec_backup_file_name(base@, suffix@, match timestamp {
            Some(t) => Some(t@),
            None => None,
        }),
{
    let mut s = String::from_str(base);
    match timestamp {
        Some(t) => {
            s.append(".");
            s.append(t);
            s.append(suffix);
            proof {
                assert(s@ =~= base@ + "."@ + t@ + suffix@);
            }
        },
        None => {
            s.append(suffix);
        },
    }
    s
}

/// Relies on chrono::Local::now and its `%Y%m%d_%H%M%S` formatter: the
/// current local time rendered for a backup name. The result depends on the
/// clock, so nothing is stated of it.
#[verifier::external_body]
fn current_timestamp() -> String {
    chrono::Local::now().format("%Y%m%d_%H%M%S").to_string()
}

/// Where the backup of `config.source` goes: its destination directory (the
/// configured one, or the source's parent) joined with the backup file name.
pub open spec fn spec_backup_dir(config: &BackupConfig) -> Seq<char> {
    match config.directory {
        Some(d) => d@,
        None => spec_parent(config.source@),
    }
}

/// The composed destination path of the backup: the source's basename, the
/// optional timestamp (left open, as it comes from the clock), and the
/// suffix, joined under the backup directory.
pub open spec fn backup_path_ok(config: &BackupConfig, p: Seq<char>) -> bool {
    let base = spec_file_name(config.source@)->Some_0;
    &&& spec_file_name(config.source@) is Some
    &&& if config.timestamp {
        exists|t: Seq<char>|
            p == spec_join_path(
                spec_backup_dir(config),
                spec_backup_file_name(base, config.suffix@, Some(t)),
            )
    } else {
        p == spec_join_path(
            spec_backup_dir(config),
            spec_backup_file_name(base, config.suffix@, None),
        )
    }
}

/// Computes the full path the backup will be written to. Fails with
/// `Other("Invalid source filename")` exactly when the source path has no
/// usable basename. When the name carries a timestamp, the timestamp comes
/// from the clock and only the shape of the result is stated.
pub fn generate_backup_path(config: &BackupConfig) -> (r: Result<String, MutxError>)
    ensures
        r is Ok <==> spec_file_name(config.source@) is Some,
        r matches Ok(p) ==> backup_path_ok(config, p@),
        r matches Err(e) ==> (e matches MutxError::Other(m) && m@ == "Invalid source filename"@),
{
    let base = match file_name(config.source.as_str()) {
        Some(b) => b,
        None => {
            return Err(MutxError::Other(String::from_str("Invalid source filename")));
        },
    };
    let dir = match &config.directory {
        Some(d) => d.clone(),
        None => parent_of(config.source.as_str()),
    };
    if config.timestamp {
        let ts = current_timestamp();
        let name = backup_file_name(base.as_str(), config.suffix.as_str(), Some(ts.as_str()));
        let p = join_path(dir.as_str(), name.as_str());
        proof {
            assert(p@ == spec_join_path(
                spec_backup_dir(config),
                spec_backup_file_name(
                    spec_file_name(config.source@)->Some_0,
                    config.suffix@,
                    Some(ts@),
                ),
            ));
        }
        Ok(p)
    } else {
        let name = backup_file_name(base.as_str(), config.suffix.as_str(), None);
        Ok(join_path(dir.as_str(), name.as_str()))
    }
}

/// The whole pre-copy decision of making a backup: the suffix must be valid,
/// the source must exist and be a regular file (both observed by the caller),
/// and the destination path is composed as [`generate_backup_path`] does.
/// Nothing has touched the filesystem when this returns.
pub fn create_backup_plan(config: &BackupConfig, source_exists: bool, source_is_file: bool) -> (r:
    Result<String, MutxError>)
    ensures
        !suffix_ok(config.suffix@) ==> (r matches Err(e) && e matches MutxError::Other(_)),
        suffix_ok(config.suffix@) && !source_exists ==> (r matches Err(e) && e matches
            MutxError::PathNotFound(p) && p@ == config.source@),
        suffix_ok(config.suffix@) && source_exists && !source_is_file ==> (r matches Err(e)
            && e matches MutxError::NotAFile(p) && p@ == config.source@),
        suffix_ok(config.suffix@) && source_exists && source_is_file ==> (r is Ok <==> spec_file_name(
            config.source@,
        ) is Some),
        r matches Ok(p) ==> backup_path_ok(config, p@),
{
    validate_backup_suffix(config.suffix.as_str())?;
    if !source_exists {
        return Err(MutxError::PathNotFound(config.source.clone()));
    }
    if !source_is_file {
        return Err(MutxError::NotAFile(config.source.clone()));
    }
    generate_backup_path(config)
}

} // verus!
