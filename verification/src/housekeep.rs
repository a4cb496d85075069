//! Housekeeping of on-disk artifacts: orphaned lock files and stale backups.
//!
//! The caller walks the directory tree and probes lock files for a live
//! holder; every decision — which entries to visit, which lock files to
//! probe, and which files to delete — is made here on plain records of what
//! the scan saw. Symlinks are never processed and never descended.

use vstd::prelude::*;
use vstd::string::{StrSliceExecFns, StringExecFns};

use crate::text::{
    is_digit, last_index_of, spec_ends_with, str_ends_with, str_eq,
};

verus! {

/// How a scan for orphaned lock files is shaped: its root directory, whether
/// it descends into subdirectories, an optional minimum age in seconds, and
/// whether it only reports instead of deleting.
#[derive(Clone, Debug)]
pub struct CleanLockConfig {
    pub dir: String,
    pub recursive: bool,
    pub older_than: Option<u64>,
    pub dry_run: bool,
}

/// How a scan for stale backups is shaped: as [`CleanLockConfig`], plus the
/// backup suffix that classifies a file as managed, and how many newest
/// backups of each group survive.
#[derive(Clone, Debug)]
pub struct CleanBackupConfig {
    pub dir: String,
    pub recursive: bool,
    pub older_than: Option<u64>,
    pub keep_newest: Option<usize>,
    pub suffix: String,
    pub dry_run: bool,
}

/// What a directory entry is, by the entry's own type — never by following
/// the path.
#[derive(Clone, Copy, Debug, PartialEq, Eq, Structural)]
pub enum EntryKind {
    File,
    Directory,
    Symlink,
    Other,
}

/// What the scan does with one directory entry.
#[derive(Clone, Copy, Debug, PartialEq, Eq, Structural)]
pub enum VisitAction {
    Process,
    Descend,
    Skip,
}

/// How the scan treats one entry: regular files are processed, directories
/// are descended only on a recursive scan, and a symlink — to a file or to a
/// directory — is never processed and never descended.
pub fn visit_decision(kind: EntryKind, recursive: bool) -> (r: VisitAction)
    ensures
        kind is Symlink ==> r is Skip,
        kind is File ==> r is Process,
        kind is Directory ==> (if recursive {
            r is Descend
        } else {
            r is Skip
        }),
        kind is Other ==> r is Skip,
{
    match kind {
        EntryKind::File => VisitAction::Process,
        EntryKind::Directory => if recursive {
            VisitAction::Descend
        } else {
            VisitAction::Skip
        },
        EntryKind::Symlink => VisitAction::Skip,
        EntryKind::Other => VisitAction::Skip,
    }
}

/// A lock-file name: one ending in `.lock`.
pub open spec fn spec_is_lock_file(name: Seq<char>) -> bool {
    spec_ends_with(name, ".lock"@)
}

/// Whether `name` names a lock file.
pub fn is_lock_file(name: &str) -> (r: bool)
    ensures
        r == spec_is_lock_file(name@),
{
    str_ends_with(name, ".lock")
}

/// The age filter of the lock scan: with no threshold every lock file
/// qualifies; with one, a file younger than the threshold is left alone (a
/// modification time in the future also qualifies, as no age can be
/// computed for it).
pub open spec fn spec_lock_age_ok(mtime_secs: u64, now_secs: u64, older_than: Option<u64>) -> bool {
    match older_than {
        None => true,
        Some(d) => !(mtime_secs <= now_secs && now_secs - mtime_secs < d),
    }
}

/// Whether a scanned file is a candidate for the orphan probe: it must be
/// named like a lock file and pass the age filter. Only candidates are
/// probed, so no other file is ever opened or locked by the scan.
pub fn should_probe_lock(name: &str, mtime_secs: u64, now_secs: u64, older_than: Option<u64>) -> (r:
    bool)
    ensures
        r == (spec_is_lock_file(name@) && spec_lock_age_ok(mtime_secs, now_secs, older_than)),
{
    if !is_lock_file(name) {
        return false;
    }
    match older_than {
        None => true,
        Some(d) => !(mtime_secs <= now_secs && now_secs - mtime_secs < d),
    }
}

/// One scanned file of the lock scan: its path, its bare name, its
/// modification time, and — where the file qualified and was probed —
/// whether the non-blocking re-lock was granted, the only race-free evidence
/// that no holder is alive.
#[derive(Clone, Debug)]
pub struct LockScanEntry {
    pub path: String,
    pub name: String,
    pub mtime_secs: u64,
    pub orphaned: Option<bool>,
}

/// A lock file is deleted exactly when it qualified for the probe and the
/// probe found it orphaned.
pub open spec fn spec_lock_delete(e: LockScanEntry, older_than: Option<u64>, now_secs: u64) -> bool {
    spec_is_lock_file(e.name@) && spec_lock_age_ok(e.mtime_secs, now_secs, older_than)
        && e.orphaned == Some(true)
}

/// The paths of the first `m` entries that the lock scan deletes, in scan
/// order.
pub open spec fn spec_clean_locks_upto(
    entries: Seq<LockScanEntry>,
    older_than: Option<u64>,
    now_secs: u64,
    m: int,
) -> Seq<Seq<char>>
    decreases m,
{
    if m <= 0 {
        Seq::empty()
    } else {
        spec_clean_locks_upto(entries, older_than, now_secs, m - 1) + (if spec_lock_delete(
            entries[m - 1],
            older_than,
            now_secs,
        ) {
            seq![entries[m - 1].path@]
        } else {
            Seq::empty()
        })
    }
}

/// The paths of all entries that the lock scan deletes, in scan order.
pub open spec fn spec_clean_locks_plan(
    entries: Seq<LockScanEntry>,
    older_than: Option<u64>,
    now_secs: u64,
) -> Seq<Seq<char>> {
    spec_clean_locks_upto(entries, older_than, now_secs, entries.len() as int)
}

/// Decides which of the scanned files are orphaned locks to be removed:
/// exactly those that are named like lock files, pass the age filter, and
/// whose probe was granted. The plan does not depend on `dry_run`; that flag
/// only decides whether the caller deletes or reports.
pub fn clean_locks(config: &CleanLockConfig, entries: &Vec<LockScanEntry>, now_secs: u64) -> (r: Vec<
    String,
>)
    ensures
        r.deep_view() == spec_clean_locks_plan(entries@, config.older_than, now_secs),
{
    let ghost plan_all = spec_clean_locks_plan(entries@, config.older_than, now_secs);
    let mut r: Vec<String> = Vec::new();
    let n = entries.len();
    let mut i: usize = 0;
    while i < n
        invariant
            n == entries@.len(),
            0 <= i <= n,
            r.deep_view() == spec_clean_locks_upto(entries@, config.older_than, now_secs, i as int),
        decreases n - i,
    {
        let e = &entries[i];
        let probe_ok = should_probe_lock(e.name.as_str(), e.mtime_secs, now_secs, config.older_than);
        let orphaned = match e.orphaned {
            Some(b) => b,
            None => false,
        };
        let ghost before = r.deep_view();
        if probe_ok && orphaned {
            r.push(e.path.clone());
            proof {
                assert(r.deep_view() =~= before.push(entries@[i as int].path@));
            }
        }
        proof {
            assert(r.deep_view() =~= spec_clean_locks_upto(
                entries@,
                config.older_than,
                now_secs,
                i + 1,
            ));
        }
        i += 1;
    }
    proof {
        assert(r.deep_view() == plan_all);
    }
    r
}

/// The lock-scan plan is the same whether or not the scan is a dry run: the
/// set reported by a dry run is exactly the set a real run deletes.
pub proof fn lemma_lock_plan_ignores_dry_run(
    c1: CleanLockConfig,
    c2: CleanLockConfig,
    entries: Seq<LockScanEntry>,
    now_secs: u64,
)
    requires
        c1.older_than == c2.older_than,
    ensures
        spec_clean_locks_plan(entries, c1.older_than, now_secs) == spec_clean_locks_plan(
            entries,
            c2.older_than,
            now_secs,
        ),
{
}

/// A backup-file name: one ending in the configured suffix.
pub open spec fn spec_is_backup_file(name: Seq<char>, suffix: Seq<char>) -> bool {
    spec_ends_with(name, suffix)
}

/// Whether `name` names a managed backup under `suffix`.
pub fn is_backup_file(name: &str, suffix: &str) -> (r: bool)
    ensures
        r == spec_is_backup_file(name@, suffix@),
{
    str_ends_with(name, suffix)
}

/// A backup timestamp: exactly 15 characters, an underscore at position 8,
/// digits everywhere else (`YYYYMMDD_HHMMSS`).
pub open spec fn spec_is_timestamp(t: Seq<char>) -> bool {
    t.len() == 15 && t[8] == '_' && forall|i: int|
        0 <= i < 15 && i != 8 ==> is_digit(#[trigger] t[i])
}

/// Whether `t` has the backup timestamp shape.
fn is_timestamp(t: &str) -> (r: bool)
    ensures
        r == spec_is_timestamp(t@),
{
    let n = t.unicode_len();
    if n != 15 {
        return false;
    }
    if t.get_char(8) != '_' {
        return false;
    }
    let mut i: usize = 0;
    while i < 15
        invariant
            t@.len() == 15,
            0 <= i <= 15,
            forall|k: int| 0 <= k < i && k != 8 ==> is_digit(#[trigger] t@[k]),
        decreases 15 - i,
    {
        if i != 8 {
            let c = t.get_char(i);
            if !('0' <= c && c <= '9') {
                return false;
            }
        }
        i += 1;
    }
    true
}

/// The group key of a backup name: the name with the suffix stripped and,
/// where the remainder ends in a dotted timestamp, that stripped too. A name
/// not ending in the suffix is its own key.
pub open spec fn spec_backup_group(name: Seq<char>, suffix: Seq<char>) -> Seq<char> {
    if !spec_ends_with(name, suffix) {
        name
    } else {
        let stem = name.take(name.len() - suffix.len());
        if exists|i: int| 0 <= i < stem.len() && stem[i] == '.' {
            let di = choose|di: int|
                0 <= di < stem.len() && stem[di] == '.' && forall|k: int|
                    di < k < stem.len() ==> stem[k] != '.';
            if spec_is_timestamp(stem.subrange(di + 1, stem.len() as int)) {
                stem.take(di)
            } else {
                stem
            }
        } else {
            stem
        }
    }
}

/// The group key of a backup name, as [`spec_backup_group`] describes it.
pub fn extract_base_filename(name: &str, suffix: &str) -> (r: String)
    ensures
        r@ == spec_backup_group(name@, suffix@),
{
    let n = name.unicode_len();
    let m = suffix.unicode_len();
    if !is_backup_file(name, suffix) {
        return String::from_str(name);
    }
    let stem = name.substring_char(0, n - m);
    proof {
        assert(stem@ == name@.take(name@.len() - suffix@.len()));
    }
    let sl = stem.unicode_len();
    match last_index_of(stem, '.') {
        Some(di) => {
            proof {
                let j = choose|j: int|
                    0 <= j < stem@.len() && stem@[j] == '.' && forall|k: int|
                        j < k < stem@.len() ==> stem@[k] != '.';
                assert(j == di) by {
                    if j < di {
                        assert(stem@[di as int] == '.');
                    }
                    if j > di {
                        assert(stem@[j] == '.');
                    }
                }
            }
            let ts = stem.substring_char(di + 1, sl);
            if is_timestamp(ts) {
                String::from_str(stem.substring_char(0, di))
            } else {
                String::from_str(stem)
            }
        },
        None => String::from_str(stem),
    }
}

/// One scanned file of the backup scan: its path, its bare name, and its
/// modification time.
#[derive(Clone, Debug)]
pub struct FileRecord {
    pub path: String,
    pub name: String,
    pub mtime_secs: u64,
}

/// Entry `j` crowds out entry `i`: both are backups of the same group, and
/// `j` is newer — strictly newer by modification time, or of the same age
/// and earlier in scan order.
pub open spec fn spec_crowds(entries: Seq<FileRecord>, suffix: Seq<char>, i: int, j: int) -> bool {
    &&& spec_is_backup_file(entries[j].name@, suffix)
    &&& spec_backup_group(entries[j].name@, suffix) == spec_backup_group(entries[i].name@, suffix)
    &&& (entries[j].mtime_secs > entries[i].mtime_secs || (entries[j].mtime_secs
        == entries[i].mtime_secs && j < i))
}

/// How many of the first `m` entries crowd out entry `i`.
pub open spec fn spec_newer_upto(
    entries: Seq<FileRecord>,
    suffix: Seq<char>,
    i: int,
    m: int,
) -> int
    decreases m,
{
    if m <= 0 {
        0
    } else {
        spec_newer_upto(entries, suffix, i, m - 1) + (if spec_crowds(entries, suffix, i, m - 1) {
            1int
        } else {
            0int
        })
    }
}

/// The rank of entry `i` in its group: how many entries of the same group
/// are newer. The newest entry of a group has rank 0.
pub open spec fn spec_rank(entries: Seq<FileRecord>, suffix: Seq<char>, i: int) -> int {
    spec_newer_upto(entries, suffix, i, entries.len() as int)
}

/// Entry `i` is deleted: it is a backup, and either its rank is at or past
/// `keep_newest`, or its age exceeds `older_than`. The two conditions are
/// OR-combined.
pub open spec fn spec_backup_delete(
    entries: Seq<FileRecord>,
    suffix: Seq<char>,
    keep_newest: Option<usize>,
    older_than: Option<u64>,
    now_secs: u64,
    i: int,
) -> bool {
    &&& spec_is_backup_file(entries[i].name@, suffix)
    &&& ((match keep_newest {
        Some(k) => spec_rank(entries, suffix, i) >= k,
        None => false,
    }) || (match older_than {
        Some(d) => entries[i].mtime_secs <= now_secs && now_secs - entries[i].mtime_secs > d,
        None => false,
    }))
}

/// The paths of the first `m` entries that the backup scan deletes, in scan
/// order.
pub open spec fn spec_clean_backups_upto(
    entries: Seq<FileRecord>,
    suffix: Seq<char>,
    keep_newest: Option<usize>,
    older_than: Option<u64>,
    now_secs: u64,
    m: int,
) -> Seq<Seq<char>>
    decreases m,
{
    if m <= 0 {
        Seq::empty()
    } else {
        spec_clean_backups_upto(entries, suffix, keep_newest, older_than, now_secs, m - 1) + (
        if spec_backup_delete(entries, suffix, keep_newest, older_than, now_secs, m - 1) {
            seq![entries[m - 1].path@]
        } else {
            Seq::empty()
        })
    }
}

/// The paths of all entries that the backup scan deletes, in scan order.
pub open spec fn spec_clean_backups_plan(
    entries: Seq<FileRecord>,
    suffix: Seq<char>,
    keep_newest: Option<usize>,
    older_than: Option<u64>,
    now_secs: u64,
) -> Seq<Seq<char>> {
    spec_clean_backups_upto(
        entries,
        suffix,
        keep_newest,
        older_than,
        now_secs,
        entries.len() as int,
    )
}

/// The rank of entry `i`, computed by counting.
fn rank_of(entries: &Vec<FileRecord>, suffix: &str, i: usize) -> (r: usize)
    requires
        i < entries@.len(),
    ensures
        r == spec_rank(entries@, suffix@, i as int),
{
    let n = entries.len();
    let mut cnt: usize = 0;
    let mut j: usize = 0;
    while j < n
        invariant
            n == entries@.len(),
            i < n,
            0 <= j <= n,
            cnt == spec_newer_upto(entries@, suffix@, i as int, j as int),
            cnt <= j,
        decreases n - j,
    {
        let ej = &entries[j];
        if is_backup_file(ej.name.as_str(), suffix) {
            let gj = extract_base_filename(ej.name.as_str(), suffix);
            let gi = extract_base_filename(entries[i].name.as_str(), suffix);
            if str_eq(gj.as_str(), gi.as_str()) {
                let newer = ej.mtime_secs > entries[i].mtime_secs || (ej.mtime_secs
                    == entries[i].mtime_secs && j < i);
                if newer {
                    cnt += 1;
                }
            }
        }
        j += 1;
    }
    cnt
}

/// Decides which of the scanned files are stale backups to be removed:
/// exactly those classified by the suffix whose rank within their group is
/// at or past `keep_newest`, or whose age exceeds `older_than`. The plan
/// does not depend on `dry_run`; that flag only decides whether the caller
/// deletes or reports.
pub fn clean_backups(config: &CleanBackupConfig, entries: &Vec<FileRecord>, now_secs: u64) -> (r:
    Vec<String>)
    ensures
        r.deep_view() == spec_clean_backups_plan(
            entries@,
            config.suffix@,
            config.keep_newest,
            config.older_than,
            now_secs,
        ),
{
    let mut r: Vec<String> = Vec::new();
    let n = entries.len();
    let mut i: usize = 0;
    while i < n
        invariant
            n == entries@.len(),
            0 <= i <= n,
            r.deep_view() == spec_clean_backups_upto(
                entries@,
                config.suffix@,
                config.keep_newest,
                config.older_than,
                now_secs,
                i as int,
            ),
        decreases n - i,
    {
        let e = &entries[i];
        let mut delete = false;
        if is_backup_file(e.name.as_str(), config.suffix.as_str()) {
            match config.keep_newest {
                Some(k) => {
                    let rank = rank_of(entries, config.suffix.as_str(), i);
                    if rank >= k {
                        delete = true;
                    }
                },
                None => {},
            }
            match config.older_than {
                Some(d) => {
                    if e.mtime_secs <= now_secs && now_secs - e.mtime_secs > d {
                        delete = true;
                    }
                },
                None => {},
            }
        }
        proof {
            assert(delete == spec_backup_delete(
                entries@,
                config.suffix@,
                config.keep_newest,
                config.older_than,
                now_secs,
                i as int,
            ));
        }
        let ghost before = r.deep_view();
        if delete {
            r.push(e.path.clone());
            proof {
                assert(r.deep_view() =~= before.push(entries@[i as int].path@));
            }
        }
        proof {
            assert(r.deep_view() =~= spec_clean_backups_upto(
                entries@,
                config.suffix@,
                config.keep_newest,
                config.older_than,
                now_secs,
                i + 1,
            ));
        }
        i += 1;
    }
    r
}

/// No entry crowds itself out.
proof fn lemma_crowds_irreflexive(entries: Seq<FileRecord>, suffix: Seq<char>, i: int)
    ensures
        !spec_crowds(entries, suffix, i, i),
{
}

/// Crowding is transitive: whatever crowds out a crowder also crowds out the
/// crowded.
proof fn lemma_crowds_transitive(entries: Seq<FileRecord>, suffix: Seq<char>, i: int, j: int, l: int)
    requires
        spec_crowds(entries, suffix, i, j),
        spec_crowds(entries, suffix, j, l),
    ensures
        spec_crowds(entries, suffix, i, l),
{
}

/// A rank is non-negative and below the number of entries.
proof fn lemma_rank_in_range(entries: Seq<FileRecord>, suffix: Seq<char>, i: int, m: int)
    requires
        0 <= i,
        0 <= m <= entries.len(),
    ensures
        0 <= spec_newer_upto(entries, suffix, i, m),
        spec_newer_upto(entries, suffix, i, m) <= m - (if i < m {
            1int
        } else {
            0int
        }),
    decreases m,
{
    if m > 0 {
        lemma_rank_in_range(entries, suffix, i, m - 1);
        lemma_crowds_irreflexive(entries, suffix, i);
    }
}

/// A crowder ranks strictly better than the entry it crowds out: everything
/// crowding the crowder also crowds the entry, and the crowder itself crowds
/// the entry too.
proof fn lemma_rank_strict_upto(
    entries: Seq<FileRecord>,
    suffix: Seq<char>,
    i: int,
    j: int,
    m: int,
)
    requires
        0 <= j < entries.len(),
        spec_crowds(entries, suffix, i, j),
        0 <= m <= entries.len(),
    ensures
        spec_newer_upto(entries, suffix, i, m) >= spec_newer_upto(entries, suffix, j, m) + (if j < m {
            1int
        } else {
            0int
        }),
    decreases m,
{
    if m > 0 {
        lemma_rank_strict_upto(entries, suffix, i, j, m - 1);
        let l = m - 1;
        if spec_crowds(entries, suffix, j, l) {
            lemma_crowds_transitive(entries, suffix, i, j, l);
        }
        if l == j {
            lemma_crowds_irreflexive(entries, suffix, j);
        }
    }
}

/// Distinct entries of one group have distinct ranks.
proof fn lemma_rank_injective(entries: Seq<FileRecord>, suffix: Seq<char>, i: int, j: int)
    requires
        0 <= i < entries.len(),
        0 <= j < entries.len(),
        i != j,
        spec_is_backup_file(entries[i].name@, suffix),
        spec_is_backup_file(entries[j].name@, suffix),
        spec_backup_group(entries[i].name@, suffix) == spec_backup_group(entries[j].name@, suffix),
    ensures
        spec_rank(entries, suffix, i) != spec_rank(entries, suffix, j),
{
    if spec_crowds(entries, suffix, i, j) {
        lemma_rank_strict_upto(entries, suffix, i, j, entries.len() as int);
    } else {
        assert(spec_crowds(entries, suffix, j, i));
        lemma_rank_strict_upto(entries, suffix, j, i, entries.len() as int);
    }
}

/// The deleted entries among the first `m`.
pub open spec fn spec_deleted_set(
    entries: Seq<FileRecord>,
    suffix: Seq<char>,
    keep_newest: Option<usize>,
    older_than: Option<u64>,
    now_secs: u64,
    m: int,
) -> Set<int> {
    Set::new(
        |i: int|
            0 <= i < m && spec_backup_delete(entries, suffix, keep_newest, older_than, now_secs, i),
    )
}

/// The plan is one path per deleted entry: its length is the number of
/// entries deleted.
proof fn lemma_plan_len(
    entries: Seq<FileRecord>,
    suffix: Seq<char>,
    keep_newest: Option<usize>,
    older_than: Option<u64>,
    now_secs: u64,
    m: int,
)
    requires
        0 <= m <= entries.len(),
    ensures
        spec_deleted_set(entries, suffix, keep_newest, older_than, now_secs, m).finite(),
        spec_clean_backups_upto(entries, suffix, keep_newest, older_than, now_secs, m).len()
            == spec_deleted_set(entries, suffix, keep_newest, older_than, now_secs, m).len(),
    decreases m,
{
    let d = spec_deleted_set(entries, suffix, keep_newest, older_than, now_secs, m);
    if m == 0 {
        assert(d =~= Set::<int>::empty());
    } else {
        lemma_plan_len(entries, suffix, keep_newest, older_than, now_secs, m - 1);
        let prev = spec_deleted_set(entries, suffix, keep_newest, older_than, now_secs, m - 1);
        if spec_backup_delete(entries, suffix, keep_newest, older_than, now_secs, m - 1) {
            assert(d =~= prev.insert(m - 1));
            assert(!prev.contains(m - 1));
        } else {
            assert(d =~= prev);
        }
    }
}

/// The keep-newest policy on one group: of `N` backups of the same group,
/// with `keep_newest = K` and no age threshold, exactly `min(N, K)` survive
/// — the `K` most recent by modification time. The plan deletes the other
/// `N - min(N, K)`, those whose rank is at or past `K`.
pub proof fn lemma_keep_newest(entries: Seq<FileRecord>, suffix: Seq<char>, k: usize, now_secs: u64)
    requires
        forall|i: int|
            0 <= i < entries.len() ==> spec_is_backup_file(#[trigger] entries[i].name@, suffix),
        forall|i: int, j: int|
            0 <= i < entries.len() && 0 <= j < entries.len() ==> spec_backup_group(
                #[trigger] entries[i].name@,
                suffix,
            ) == spec_backup_group(#[trigger] entries[j].name@, suffix),
    ensures
        spec_clean_backups_plan(entries, suffix, Some(k), None, now_secs).len() == entries.len()
            - (if (k as int) < entries.len() {
            k as int
        } else {
            entries.len() as int
        }),
{
    let n = entries.len() as int;
    let f = |i: int| spec_rank(entries, suffix, i);
    let dom = vstd::set_lib::set_int_range(0, n);
    vstd::set_lib::lemma_int_range(0, n);
    assert forall|i: int| dom.contains(i) implies 0 <= #[trigger] f(i) < n by {
        lemma_rank_in_range(entries, suffix, i, n);
    }
    assert(vstd::relations::injective_on(f, dom)) by {
        assert forall|x: int, y: int|
            dom.contains(x) && dom.contains(y) && #[trigger] f(x) == #[trigger] f(
                y,
            ) implies x == y by {
            if x != y {
                lemma_rank_injective(entries, suffix, x, y);
            }
        }
    }
    let image = dom.map(f);
    vstd::set_lib::lemma_map_size(dom, image, f);
    assert(image.subset_of(dom)) by {
        assert forall|v: int| image.contains(v) implies dom.contains(v) by {
            let i = choose|i: int| dom.contains(i) && v == f(i);
            assert(0 <= f(i) < n);
        }
    }
    vstd::set_lib::lemma_subset_equality(image, dom);
    let kmin: int = if (k as int) < n {
        k as int
    } else {
        n
    };
    let kept = Set::new(|i: int| 0 <= i < n && f(i) < k as int);
    assert(kept.subset_of(dom));
    vstd::set_lib::lemma_len_subset(kept, dom);
    let kept_image = vstd::set_lib::set_int_range(0, kmin);
    vstd::set_lib::lemma_int_range(0, kmin);
    assert(kept.map(f) =~= kept_image) by {
        assert forall|v: int| kept.map(f).contains(v) implies kept_image.contains(v) by {
            let i = choose|i: int| kept.contains(i) && v == f(i);
            assert(0 <= f(i) < n);
        }
        assert forall|v: int| kept_image.contains(v) implies kept.map(f).contains(v) by {
            assert(dom.contains(v));
            assert(image.contains(v));
            let i = choose|i: int| dom.contains(i) && v == f(i);
            assert(kept.contains(i));
        }
    }
    vstd::set_lib::lemma_map_size(kept, kept_image, f);
    assert(kept.len() == kmin);
    let deleted = spec_deleted_set(entries, suffix, Some(k), None, now_secs, n);
    assert(deleted =~= Set::new(|i: int| 0 <= i < n && f(i) >= k as int)) by {
        assert forall|i: int| 0 <= i < n implies (spec_backup_delete(
            entries,
            suffix,
            Some(k),
            None,
            now_secs,
            i,
        ) <==> #[trigger] f(i) >= k as int) by {
            assert(spec_is_backup_file(entries[i].name@, suffix));
        }
    }
    lemma_plan_len(entries, suffix, Some(k), None, now_secs, n);
    let del_image = vstd::set_lib::set_int_range(kmin, n);
    vstd::set_lib::lemma_int_range(kmin, n);
    assert(deleted.subset_of(dom));
    vstd::set_lib::lemma_len_subset(deleted, dom);
    assert(deleted.map(f) =~= del_image) by {
        assert forall|v: int| deleted.map(f).contains(v) implies del_image.contains(v) by {
            let i = choose|i: int| deleted.contains(i) && v == f(i);
            assert(0 <= f(i) < n);
        }
        assert forall|v: int| del_image.contains(v) implies deleted.map(f).contains(v) by {
            assert(dom.contains(v));
            assert(image.contains(v));
            let i = choose|i: int| dom.contains(i) && v == f(i);
            assert(deleted.contains(i));
        }
    }
    vstd::set_lib::lemma_map_size(deleted, del_image, f);
    assert(deleted.len() == n - kmin);
}

/// The backup-scan plan is the same whether or not the scan is a dry run:
/// the set reported by a dry run is exactly the set a real run deletes, for
/// the same records.
pub proof fn lemma_backup_plan_ignores_dry_run(
    c1: CleanBackupConfig,
    c2: CleanBackupConfig,
    entries: Seq<FileRecord>,
    now_secs: u64,
)
    requires
        c1.suffix@ == c2.suffix@,
        c1.keep_newest == c2.keep_newest,
        c1.older_than == c2.older_than,
    ensures
        spec_clean_backups_plan(entries, c1.suffix@, c1.keep_newest, c1.older_than, now_secs)
            == spec_clean_backups_plan(entries, c2.suffix@, c2.keep_newest, c2.older_than, now_secs),
{
}

} // verus!
