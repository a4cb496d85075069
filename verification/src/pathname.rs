//! Helpers over paths carried as plain strings with `/` separators: joining,
//! basename and parent extraction.

use vstd::prelude::*;
use vstd::string::{StrSliceExecFns, StringExecFns};

use crate::text::{last_index_of, push_char};

verus! {

/// `dir` and `name` joined with a single separator; an empty `dir` leaves
/// `name` relative, and a `dir` already ending in a separator gets no second
/// one.
pub open spec fn spec_join_path(dir: Seq<char>, name: Seq<char>) -> Seq<char> {
    if dir.len() == 0 {
        name
    } else if dir.last() == '/' {
        dir + name
    } else {
        dir + "/"@ + name
    }
}

/// Joins a directory and a file name with a separator.
pub fn join_path(dir: &str, name: &str) -> (r: String)
    ensures
        r@ == spec_join_path(dir@, name@),
{
    let n = dir.unicode_len();
    let mut s = String::from_str(dir);
    if n > 0 && dir.get_char(n - 1) != '/' {
        push_char(&mut s, '/');
        proof {
            assert(s@ =~= dir@ + "/"@) by {
                reveal_strlit("/");
            }
        }
    }
    s.append(name);
    proof {
        assert(s@ =~= spec_join_path(dir@, name@));
    }
    s
}

/// The segment of `path` after its last separator; the whole of `path` when
/// it has none.
pub open spec fn spec_tail(path: Seq<char>) -> Seq<char> {
    if exists|i: int| 0 <= i < path.len() && path[i] == '/' {
        let i = choose|i: int|
            0 <= i < path.len() && path[i] == '/' && forall|k: int|
                i < k < path.len() ==> path[k] != '/';
        path.subrange(i + 1, path.len() as int)
    } else {
        path
    }
}

/// The basename of `path`: the segment after the last separator, refused
/// when it is empty or a dot form that names no file.
pub open spec fn spec_file_name(path: Seq<char>) -> Option<Seq<char>> {
    let tail = spec_tail(path);
    if tail.len() == 0 || tail == "."@ || tail == ".."@ {
        None
    } else {
        Some(tail)
    }
}

/// The prefix of `path` before its last separator: `/` for a file directly
/// under the root, the empty string for a bare name.
pub open spec fn spec_parent(path: Seq<char>) -> Seq<char> {
    if exists|i: int| 0 <= i < path.len() && path[i] == '/' {
        let i = choose|i: int|
            0 <= i < path.len() && path[i] == '/' && forall|k: int|
                i < k < path.len() ==> path[k] != '/';
        if i == 0 {
            "/"@
        } else {
            path.subrange(0, i)
        }
    } else {
        Seq::<char>::empty()
    }
}

/// The position of the last separator of `path`, if it has one.
fn last_separator(path: &str) -> (r: Option<usize>)
    ensures
        match r {
            Some(i) => i < path@.len() && path@[i as int] == '/' && forall|k: int|
                i < k < path@.len() ==> path@[k] != '/',
            None => forall|k: int| 0 <= k < path@.len() ==> path@[k] != '/',
        },
{
    last_index_of(path, '/')
}

/// The basename of `path`, as [`spec_file_name`] describes it.
pub fn file_name(path: &str) -> (r: Option<String>)
    ensures
        match r {
            Some(s) => spec_file_name(path@) == Some(s@),
            None => spec_file_name(path@) is None,
        },
{
    let n = path.unicode_len();
    let tail = match last_separator(path) {
        Some(i) => {
            proof {
                let j = choose|j: int|
                    0 <= j < path@.len() && path@[j] == '/' && forall|k: int|
                        j < k < path@.len() ==> path@[k] != '/';
                assert(j == i) by {
                    if j < i {
                        assert(path@[i as int] == '/');
                    }
                    if j > i {
                        assert(path@[j] == '/');
                    }
                }
            }
            path.substring_char(i + 1, n)
        },
        None => {
            proof {
                assert(path@.subrange(0, n as int) =~= path@);
            }
            path.substring_char(0, n)
        },
    };
    proof {
        assert(tail@ == spec_tail(path@));
    }
    let m = tail.unicode_len();
    if m == 0 {
        return None;
    }
    if m == 1 && tail.get_char(0) == '.' {
        proof {
            reveal_strlit(".");
            assert(tail@ =~= "."@);
        }
        return None;
    }
    if m == 2 && tail.get_char(0) == '.' && tail.get_char(1) == '.' {
        proof {
            reveal_strlit("..");
            assert(tail@ =~= ".."@);
        }
        return None;
    }
    proof {
        reveal_strlit(".");
        reveal_strlit("..");
        assert(tail@ != "."@ && tail@ != ".."@) by {
            if tail@ =~= "."@ {
                assert(m == 1 && tail@[0] == '.');
            }
            if tail@ =~= ".."@ {
                assert(m == 2 && tail@[0] == '.' && tail@[1] == '.');
            }
        }
    }
    Some(String::from_str(tail))
}

/// The segment of `path` after its last separator, as [`spec_tail`]
/// describes it.
pub fn tail_of(path: &str) -> (r: String)
    ensures
        r@ == spec_tail(path@),
{
    let n = path.unicode_len();
    match last_separator(path) {
        Some(i) => {
            proof {
                let j = choose|j: int|
                    0 <= j < path@.len() && path@[j] == '/' && forall|k: int|
                        j < k < path@.len() ==> path@[k] != '/';
                assert(j == i) by {
                    if j < i {
                        assert(path@[i as int] == '/');
                    }
                    if j > i {
                        assert(path@[j] == '/');
                    }
                }
            }
            String::from_str(path.substring_char(i + 1, n))
        },
        None => {
            proof {
                assert(path@.subrange(0, n as int) =~= path@);
            }
            String::from_str(path)
        },
    }
}

/// The parent prefix of `path`, as [`spec_parent`] describes it.
pub fn parent_of(path: &str) -> (r: String)
    ensures
        r@ == spec_parent(path@),
{
    match last_separator(path) {
        Some(i) => {
            proof {
                let j = choose|j: int|
                    0 <= j < path@.len() && path@[j] == '/' && forall|k: int|
                        j < k < path@.len() ==> path@[k] != '/';
                assert(j == i) by {
                    if j < i {
                        assert(path@[i as int] == '/');
                    }
                    if j > i {
                        assert(path@[j] == '/');
                    }
                }
            }
            if i == 0 {
                String::from_str("/")
            } else {
                String::from_str(path.substring_char(0, i))
            }
        },
        None => String::new(),
    }
}

} // verus!
