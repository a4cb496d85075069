//! Lock-path derivation: a stable, collision-resistant lock-file name for a
//! canonical target path, placed under the per-user cache directory.
//!
//! The name is `{initialism}{parent}.{filename}.{hash8}.lock`: the first
//! characters of up to three directories above the target's parent (lowered,
//! dot-separated), the parent directory's name, the target's basename, and
//! the first eight hex characters of the SHA-256 digest of the canonical
//! path. The digest is the uniqueness guarantor; the prefix only keeps the
//! cache directory readable.

use vstd::prelude::*;
use vstd::string::{StrSliceExecFns, StringExecFns, StringSliceAdditionalSpecFns};

use crate::error::MutxError;
use crate::pathname::{
    file_name, join_path, parent_of, spec_file_name, spec_join_path, spec_parent, spec_tail,
    tail_of,
};
use crate::text::{char_is_alphanumeric, lower_char, push_char, spec_alphanumeric, spec_lower_char, str_eq};

verus! {

/// What SHA-256 returns: the digest of a byte sequence, a function of the
/// bytes alone.
pub uninterp spec fn sha256_of(data: Seq<u8>) -> Seq<u8>;

/// Relies on sha2::Sha256: the 32-byte digest of the input.
#[verifier::external_body]
fn sha256_digest(data: &[u8]) -> (r: Vec<u8>)
    ensures
        r@ == sha256_of(data@),
        r@.len() == 32,
{
    <sha2::Sha256 as sha2::Digest>::digest(data).to_vec()
}

/// The hex digit of a value below 16, lower case.
pub open spec fn spec_hex_digit(v: u8) -> char {
    if v < 10 {
        (('0' as u32) + (v as u32)) as char
    } else {
        (('a' as u32) + (v as u32) - 10) as char
    }
}

/// The lower-case hex encoding of a byte sequence: two digits per byte, high
/// nibble first.
pub open spec fn spec_to_hex(data: Seq<u8>) -> Seq<char> {
    Seq::new(
        data.len() * 2,
        |i: int|
            if i % 2 == 0 {
                spec_hex_digit(data[i / 2] / 16)
            } else {
                spec_hex_digit(data[i / 2] % 16)
            },
    )
}

/// Hex-encodes a byte sequence, lower case.
fn to_hex(data: &Vec<u8>) -> (r: String)
    ensures
        r@ == spec_to_hex(data@),
{
    let mut s = String::new();
    let n = data.len();
    let mut i: usize = 0;
    while i < n
        invariant
            n == data@.len(),
            0 <= i <= n,
            s@ =~= spec_to_hex(data@).take(2 * i),
        decreases n - i,
    {
        let b = data[i];
        let hi = b / 16;
        let lo = b % 16;
        let hc = if hi < 10 {
            (48 + hi) as char
        } else {
            (87 + hi) as char
        };
        let lc = if lo < 10 {
            (48 + lo) as char
        } else {
            (87 + lo) as char
        };
        proof {
            assert(hc == spec_hex_digit(data@[i as int] / 16));
            assert(lc == spec_hex_digit(data@[i as int] % 16));
        }
        push_char(&mut s, hc);
        push_char(&mut s, lc);
        proof {
            assert(s@ =~= spec_to_hex(data@).take(2 * (i + 1)));
        }
        i += 1;
    }
    proof {
        assert(spec_to_hex(data@).take(2 * n) =~= spec_to_hex(data@));
    }
    s
}

/// The first eight hex characters of the SHA-256 digest of the canonical
/// path's bytes.
#[verifier::opaque]
pub open spec fn spec_hash8(canonical: Seq<char>) -> Seq<char> {
    spec_to_hex(sha256_of(vstd::utf8::encode_utf8(canonical))).take(8)
}

/// One initialism element: the first character of a directory name, lowered,
/// followed by a dot — or nothing, when the name is empty or starts with a
/// character that is not alphanumeric.
pub open spec fn spec_initial(name: Seq<char>) -> Seq<char> {
    if name.len() > 0 && spec_alphanumeric(name[0]) {
        seq![spec_lower_char(name[0]), '.']
    } else {
        Seq::<char>::empty()
    }
}

/// The initialism of a canonical path: the initials of up to three
/// directories above the target's parent, outermost first.
pub open spec fn spec_initialism(canonical: Seq<char>) -> Seq<char> {
    let p1 = spec_parent(canonical);
    let p2 = spec_parent(p1);
    let p3 = spec_parent(p2);
    let p4 = spec_parent(p3);
    spec_initial(spec_tail(p4)) + spec_initial(spec_tail(p3)) + spec_initial(spec_tail(p2))
}

/// The parent directory's own name; `root` for a target directly under the
/// filesystem root.
pub open spec fn spec_parent_name(canonical: Seq<char>) -> Seq<char> {
    let t = spec_tail(spec_parent(canonical));
    if t.len() == 0 {
        "root"@
    } else {
        t
    }
}

/// The derived lock-file name of a canonical target path.
pub open spec fn spec_lock_file_name(canonical: Seq<char>) -> Seq<char> {
    spec_initialism(canonical) + spec_parent_name(canonical) + "."@ + spec_file_name(
        canonical,
    )->Some_0 + "."@ + spec_hash8(canonical) + ".lock"@
}

/// Appends [`spec_initial`] of `name` to `s`.
fn push_initial(s: &mut String, name: &str)
    ensures
        final(s)@ == old(s)@ + spec_initial(name@),
{
    let n = name.unicode_len();
    if n > 0 {
        let c = name.get_char(0);
        if char_is_alphanumeric(c) {
            push_char(s, lower_char(c));
            push_char(s, '.');
            proof {
                assert(final(s)@ =~= old(s)@ + spec_initial(name@));
            }
            return ;
        }
    }
    proof {
        assert(final(s)@ =~= old(s)@ + spec_initial(name@));
    }
}

/// Builds the lock-file name of a canonical target path. Fails exactly when
/// the path has no usable basename.
pub fn lock_file_name(canonical: &str) -> (r: Result<String, MutxError>)
    ensures
        r is Ok <==> spec_file_name(canonical@) is Some,
        r matches Ok(n) ==> n@ == spec_lock_file_name(canonical@),
        r matches Err(e) ==> (e matches MutxError::Other(m) && m@ == "Output path has no filename"@),
{
    let base = match file_name(canonical) {
        Some(b) => b,
        None => {
            return Err(MutxError::Other(String::from_str("Output path has no filename")));
        },
    };
    let p1 = parent_of(canonical);
    let p2 = parent_of(p1.as_str());
    let p3 = parent_of(p2.as_str());
    let p4 = parent_of(p3.as_str());
    let mut name = String::new();
    push_initial(&mut name, tail_of(p4.as_str()).as_str());
    push_initial(&mut name, tail_of(p3.as_str()).as_str());
    push_initial(&mut name, tail_of(p2.as_str()).as_str());
    proof {
        assert(name@ =~= spec_initialism(canonical@));
    }
    let parent_tail = tail_of(p1.as_str());
    if parent_tail.unicode_len() == 0 {
        name.append("root");
    } else {
        name.append(parent_tail.as_str());
    }
    name.append(".");
    name.append(base.as_str());
    name.append(".");
    let digest = sha256_digest(canonical.as_bytes());
    let hex = to_hex(&digest);
    let hash8 = hex.as_str().substring_char(0, 8);
    proof {
        reveal(spec_hash8);
        assert(canonical.spec_bytes() == vstd::utf8::encode_utf8(canonical@));
        assert(hash8@ == spec_hash8(canonical@));
    }
    name.append(hash8);
    name.append(".lock");
    proof {
        assert(name@ =~= spec_lock_file_name(canonical@));
    }
    Ok(name)
}

/// Derives the lock path for a target.
///
/// A custom path is returned verbatim. Otherwise the caller hands in what the
/// filesystem told it: the target's canonical form where the target exists;
/// else whether the target's parent exists and, where it does, the parent's
/// canonical form. The lock path is the derived name under `cache_dir`. The
/// parent's absence is `PathNotFound`; directories are never created here.
pub fn derive_lock_path(
    path: &str,
    is_custom: bool,
    canonical: Option<&str>,
    parent_exists: bool,
    canonical_parent: Option<&str>,
    cache_dir: &str,
) -> (r: Result<String, MutxError>)
    ensures
        is_custom ==> (r matches Ok(p) && p@ == path@),
        !is_custom ==> match canonical {
            Some(c) => (r matches Ok(p) && p@ == spec_join_path(
                cache_dir@,
                spec_lock_file_name(c@),
            )) || (r matches Err(e) && e matches MutxError::Other(m) && m@
                == "Output path has no filename"@ && spec_file_name(c@) is None),
            None => {
                if path@.len() == 0 || path@ =~= "/"@ {
                    r matches Err(e) && e matches MutxError::Other(m) && m@
                        == "Output path has no parent"@
                } else if !parent_exists {
                    r matches Err(e) && e matches MutxError::PathNotFound(p) && p@ == spec_parent(
                        path@,
                    )
                } else {
                    match canonical_parent {
                        Some(cp) => (r matches Ok(p) && p@ == spec_join_path(
                            cache_dir@,
                            spec_lock_file_name(
                                spec_join_path(cp@, spec_file_name(path@)->Some_0),
                            ),
                        )) || (r matches Err(e) && e matches MutxError::Other(m) && m@
                            == "Output path has no filename"@ && (spec_file_name(path@) is None
                            || spec_file_name(
                            spec_join_path(cp@, spec_file_name(path@)->Some_0),
                        ) is None)),
                        None => r matches Err(e) && e matches MutxError::Other(m) && m@
                            == "Failed to canonicalize parent directory"@,
                    }
                }
            },
        },
{
    if is_custom {
        return Ok(String::from_str(path));
    }
    let resolved: String = match canonical {
        Some(c) => String::from_str(c),
        None => {
            let n = path.unicode_len();
            if n == 0 || (n == 1 && path.get_char(0) == '/') {
                proof {
                    reveal_strlit("/");
                    if n == 1 && path@[0] == '/' {
                        assert(path@ =~= "/"@);
                    }
                }
                return Err(MutxError::Other(String::from_str("Output path has no parent")));
            }
            proof {
                reveal_strlit("/");
                assert(!(path@ =~= "/"@));
            }
            if !parent_exists {
                return Err(MutxError::PathNotFound(parent_of(path)));
            }
            let cp = match canonical_parent {
                Some(cp) => cp,
                None => {
                    return Err(MutxError::Other(
                        String::from_str("Failed to canonicalize parent directory"),
                    ));
                },
            };
            let base = match file_name(path) {
                Some(b) => b,
                None => {
                    return Err(MutxError::Other(String::from_str("Output path has no filename")));
                },
            };
            join_path(cp, base.as_str())
        },
    };
    let name = lock_file_name(resolved.as_str())?;
    Ok(join_path(cache_dir, name.as_str()))
}

/// The per-user cache directory that holds the lock files: the OS cache
/// location for this application, with a `locks` component below it. The
/// caller creates the directory; nothing is created here.
pub fn get_lock_cache_dir() -> (r: Result<String, MutxError>)
    ensures
        r matches Ok(p) ==> exists|base: Seq<char>| p@ == spec_join_path(base, "locks"@),
        r matches Err(e) ==> e matches MutxError::Other(_),
{
    let base = match user_cache_dir() {
        Some(b) => b,
        None => {
            return Err(MutxError::Other(
                String::from_str(
                    "Failed to determine lock cache directory. Try specifying an explicit directory with the DIR argument.",
                ),
            ));
        },
    };
    let p = join_path(base.as_str(), "locks");
    proof {
        assert(p@ == spec_join_path(base@, "locks"@));
    }
    Ok(p)
}

/// Relies on directories::ProjectDirs: the per-user cache directory of this
/// application. The result depends on the environment, so nothing is stated
/// of it.
#[verifier::external_body]
fn user_cache_dir() -> Option<String> {
    directories::ProjectDirs::from("", "", "mutx").map(
        |d| d.cache_dir().to_string_lossy().into_owned(),
    )
}

/// Refuses a lock path whose canonical form equals the target's canonical
/// form; locking such a path would truncate the output itself.
pub fn validate_lock_path(lock_path: &str, output_path: &str) -> (r: Result<(), MutxError>)
    ensures
        r is Ok <==> lock_path@ != output_path@,
        r matches Err(e) ==> (e matches MutxError::LockPathCollision { lock_path: l, output_path: o }
            && l@ == lock_path@ && o@ == output_path@),
{
    if str_eq(lock_path, output_path) {
        Err(
            MutxError::LockPathCollision {
                lock_path: String::from_str(lock_path),
                output_path: String::from_str(output_path),
            },
        )
    } else {
        Ok(())
    }
}

/// Equal derived lock names force equal hash prefixes: the lock name
/// determines the first eight hex characters of the target's SHA-256 digest,
/// so two targets can share a lock name only where those digest prefixes
/// collide. Together with the exact contract of [`lock_file_name`], this pins
/// the derivation as a function of the canonical path whose collisions are
/// exactly the eight-character digest collisions.
/// The digest prefix of a derived name is eight characters long.
proof fn lemma_hash8_len(c: Seq<char>)
    requires
        sha256_of(vstd::utf8::encode_utf8(c)).len() == 32,
    ensures
        spec_hash8(c).len() == 8,
{
    reveal(spec_hash8);
}

/// A derived name ends with the digest prefix and `.lock`.
proof fn lemma_name_split(c: Seq<char>)
    requires
        sha256_of(vstd::utf8::encode_utf8(c)).len() == 32,
    ensures
        spec_lock_file_name(c).len() >= 13,
        spec_lock_file_name(c).subrange(
            spec_lock_file_name(c).len() - 13,
            spec_lock_file_name(c).len() as int,
        ) == spec_hash8(c) + ".lock"@,
{
    reveal_strlit(".lock");
    lemma_hash8_len(c);
    let h = spec_hash8(c) + ".lock"@;
    let pre = spec_initialism(c) + spec_parent_name(c) + "."@ + spec_file_name(c)->Some_0 + "."@;
    assert(spec_lock_file_name(c) =~= pre + h);
    let n = spec_lock_file_name(c);
    assert(n.subrange(n.len() - 13, n.len() as int) =~= h);
}

/// Equal derived lock names force equal hash prefixes: the lock name
/// determines the first eight hex characters of the target's SHA-256 digest,
/// so two targets can share a lock name only where those digest prefixes
/// collide. Together with the exact contract of [`lock_file_name`], this pins
/// the derivation as a function of the canonical path whose collisions are
/// exactly the eight-character digest collisions.
pub proof fn lemma_lock_name_collision(c1: Seq<char>, c2: Seq<char>)
    requires
        spec_lock_file_name(c1) == spec_lock_file_name(c2),
        sha256_of(vstd::utf8::encode_utf8(c1)).len() == 32,
        sha256_of(vstd::utf8::encode_utf8(c2)).len() == 32,
    ensures
        spec_hash8(c1) == spec_hash8(c2),
{
    lemma_hash8_len(c1);
    lemma_hash8_len(c2);
    lemma_name_split(c1);
    lemma_name_split(c2);
    assert(spec_hash8(c1) + ".lock"@ == spec_hash8(c2) + ".lock"@);
    assert(spec_hash8(c1) =~= spec_hash8(c2)) by {
        assert(forall|i: int| 0 <= i < 8 ==> spec_hash8(c1)[i] == (spec_hash8(c1) + ".lock"@)[i]
            && spec_hash8(c2)[i] == (spec_hash8(c2) + ".lock"@)[i]);
    }
}

} // verus!
