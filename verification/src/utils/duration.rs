//! The duration lexer: `NUMBER[s|m|h|d]`, seconds by default.

use vstd::prelude::*;
use vstd::string::{StrSliceExecFns, StringExecFns};

use crate::error::MutxError;
use crate::text::is_digit;

verus! {

/// An ASCII whitespace character, as trimmed from the ends of the input.
pub open spec fn is_space(c: char) -> bool {
    c == ' ' || c == '\t' || c == '\n' || c == '\r' || (c as u32) == 0x0B || (c as u32) == 0x0C
}

/// `s` with its leading spaces removed.
pub open spec fn trim_front(s: Seq<char>) -> Seq<char>
    decreases s.len(),
{
    if s.len() > 0 && is_space(s[0]) {
        trim_front(s.drop_first())
    } else {
        s
    }
}

/// `s` with its trailing spaces removed.
pub open spec fn trim_back(s: Seq<char>) -> Seq<char>
    decreases s.len(),
{
    if s.len() > 0 && is_space(s.last()) {
        trim_back(s.drop_last())
    } else {
        s
    }
}

/// `s` with spaces removed from both ends.
pub open spec fn spec_trim(s: Seq<char>) -> Seq<char> {
    trim_back(trim_front(s))
}

/// Every character of `s` is a decimal digit.
pub open spec fn all_digits(s: Seq<char>) -> bool {
    forall|i: int| 0 <= i < s.len() ==> is_digit(#[trigger] s[i])
}

/// The value of a string of decimal digits.
pub open spec fn digits_value(s: Seq<char>) -> int
    decreases s.len(),
{
    if s.len() == 0 {
        0
    } else {
        digits_value(s.drop_last()) * 10 + (s.last() as int - '0' as int)
    }
}

/// The digit part of a decimal literal: an optional leading `+` is dropped.
pub open spec fn digits_of(s: Seq<char>) -> Seq<char> {
    if s.len() > 0 && s[0] == '+' {
        s.drop_first()
    } else {
        s
    }
}

/// `s` is a decimal literal whose value fits in a `u64`: an optional `+`,
/// then at least one digit.
pub open spec fn is_u64_literal(s: Seq<char>) -> bool {
    &&& digits_of(s).len() > 0
    &&& all_digits(digits_of(s))
    &&& digits_value(digits_of(s)) <= u64::MAX
}

/// The seconds one unit letter stands for.
pub open spec fn unit_seconds(c: char) -> nat {
    if c == 's' {
        1
    } else if c == 'm' {
        60
    } else if c == 'h' {
        3600
    } else if c == 'd' {
        86400
    } else {
        0
    }
}

/// The number part and the unit multiplier of a trimmed duration string.
/// A trailing `s`, `m`, `h` or `d` is the unit; otherwise seconds.
pub open spec fn split_unit(t: Seq<char>) -> (Seq<char>, nat) {
    if t.len() > 0 && unit_seconds(t.last()) > 0 {
        (t.drop_last(), unit_seconds(t.last()))
    } else {
        (t, 1)
    }
}

/// What the duration lexer accepts, and the seconds it yields: the input is
/// trimmed, an optional unit letter is split off, and the rest must be a
/// decimal literal whose value in seconds fits in a `u64`.
pub open spec fn spec_parse_duration(s: Seq<char>) -> Option<u64> {
    let t = spec_trim(s);
    let (num, mult) = split_unit(t);
    if t.len() == 0 {
        None
    } else if !is_u64_literal(num) {
        None
    } else if digits_value(digits_of(num)) * mult > u64::MAX {
        None
    } else {
        Some((digits_value(digits_of(num)) * mult) as u64)
    }
}

proof fn lemma_digits_value_extend(s: Seq<char>, i: int)
    requires
        0 <= i <= s.len(),
        all_digits(s),
    ensures
        0 <= digits_value(s.take(i)) <= digits_value(s),
    decreases s.len() - i,
{
    assert(all_digits(s.take(i))) by {
        assert(forall|k: int| 0 <= k < i ==> s.take(i)[k] == s[k]);
    }
    lemma_digits_value_nonneg(s.take(i));
    if i < s.len() {
        lemma_digits_value_extend(s, i + 1);
        assert(s.take(i + 1).drop_last() =~= s.take(i));
        assert(s.take(i + 1).last() == s[i]);
        assert(is_digit(s[i]));
        assert(digits_value(s.take(i)) <= digits_value(s.take(i + 1)));
    } else {
        assert(s.take(i) =~= s);
    }
}

proof fn lemma_digits_value_nonneg(s: Seq<char>)
    requires
        all_digits(s),
    ensures
        digits_value(s) >= 0,
    decreases s.len(),
{
    if s.len() > 0 {
        assert(all_digits(s.drop_last()));
        lemma_digits_value_nonneg(s.drop_last());
        assert(is_digit(s.last()));
    }
}

/// Parses the digits of `s` (after an optional `+`) as a `u64`.
fn parse_u64(s: &str) -> (r: Option<u64>)
    ensures
        match r {
            Some(v) => is_u64_literal(s@) && v == digits_value(digits_of(s@)),
            None => !is_u64_literal(s@),
        },
{
    let n = s.unicode_len();
    let mut start: usize = 0;
    if n > 0 && s.get_char(0) == '+' {
        start = 1;
    }
    proof {
        assert(digits_of(s@) =~= s@.subrange(start as int, n as int));
    }
    if start == n {
        return None;
    }
    let ghost d = digits_of(s@);
    let mut acc: u64 = 0;
    let mut i: usize = start;
    while i < n
        invariant
            n == s@.len(),
            start <= i <= n,
            d == digits_of(s@),
            d =~= s@.subrange(start as int, n as int),
            acc == digits_value(d.take(i - start)),
            all_digits(d.take(i - start)),
        decreases n - i,
    {
        let c = s.get_char(i);
        if !('0' <= c && c <= '9') {
            assert(!all_digits(d)) by {
                assert(d[i - start] == c);
            }
            return None;
        }
        let digit: u64 = (c as u32 as u64) - 48;
        assert(digit == c as nat - '0' as nat && digit <= 9);
        if acc > (u64::MAX - digit) / 10 {
            // The value no longer fits in a u64; nor can any extension of it.
            proof {
                assert(acc * 10 + digit > u64::MAX) by (nonlinear_arith)
                    requires
                        acc > (u64::MAX - digit) / 10,
                        digit <= 9,
                ;
                assert(d.take(i - start + 1).drop_last() =~= d.take(i - start));
                assert(d.take(i - start + 1).last() == d[i - start]);
                assert(digits_value(d.take(i - start + 1)) > u64::MAX);
                if all_digits(d) {
                    lemma_digits_value_extend(d, i - start + 1);
                }
            }
            return None;
        }
        proof {
            assert(acc * 10 + digit <= u64::MAX) by (nonlinear_arith)
                requires
                    acc <= (u64::MAX - digit) / 10,
                    digit <= 9,
            ;
            assert(d.take(i - start + 1).drop_last() =~= d.take(i - start));
            assert(d.take(i - start + 1).last() == d[i - start]);
        }
        acc = acc * 10 + digit;
        i += 1;
    }
    proof {
        assert(d.take(n - start) =~= d);
    }
    Some(acc)
}

/// Whether the character of `s` at `i` is a space.
fn space_at(s: &str, i: usize) -> (r: bool)
    requires
        i < s@.len(),
    ensures
        r == is_space(s@[i as int]),
{
    let c = s.get_char(i);
    c == ' ' || c == '\t' || c == '\n' || c == '\r' || (c as u32) == 0x0B || (c as u32) == 0x0C
}

/// The trimmed middle of `s`: `spec_trim(s@)` as a borrowed slice.
fn trim_spaces<'a>(s: &'a str) -> (r: &'a str)
    ensures
        r@ == spec_trim(s@),
{
    let n = s.unicode_len();
    proof {
        assert(s@.subrange(0, n as int) =~= s@);
    }
    let mut a: usize = 0;
    while a < n && space_at(s, a)
        invariant
            n == s@.len(),
            0 <= a <= n,
            trim_front(s@) == trim_front(s@.subrange(a as int, n as int)),
        decreases n - a,
    {
        proof {
            assert(s@.subrange(a as int, n as int).drop_first() =~= s@.subrange(
                a + 1,
                n as int,
            ));
        }
        a += 1;
    }
    proof {
        if a < n {
            assert(!is_space(s@.subrange(a as int, n as int)[0]));
        }
        assert(trim_front(s@) == s@.subrange(a as int, n as int));
    }
    let mut b: usize = n;
    while b > a && space_at(s, b - 1)
        invariant
            n == s@.len(),
            a <= b <= n,
            trim_front(s@) == s@.subrange(a as int, n as int),
            trim_back(s@.subrange(a as int, n as int)) == trim_back(
                s@.subrange(a as int, b as int),
            ),
        decreases b,
    {
        proof {
            assert(s@.subrange(a as int, b as int).drop_last() =~= s@.subrange(
                a as int,
                b - 1,
            ));
        }
        b -= 1;
    }
    proof {
        if b > a {
            assert(!is_space(s@.subrange(a as int, b as int).last()));
        }
        assert(spec_trim(s@) == s@.subrange(a as int, b as int));
    }
    s.substring_char(a, b)
}

/// Parses a duration string like `30s`, `5m`, `2h` or `7d` into whole
/// seconds; a bare number means seconds. Returns `InvalidDuration`, carrying
/// the trimmed input, on anything else.
pub fn parse_duration(s: &str) -> (r: Result<u64, MutxError>)
    ensures
        match spec_parse_duration(s@) {
            Some(v) => r matches Ok(x) && x == v,
            None => r matches Err(e) && e matches MutxError::InvalidDuration { input, .. }
                && input@ == spec_trim(s@),
        },
{
    let t = trim_spaces(s);
    let n = t.unicode_len();
    if n == 0 {
        return Err(MutxError::InvalidDuration {
            input: String::from_str(t),
            message: String::from_str("empty string"),
        });
    }
    let last = t.get_char(n - 1);
    let (num, mult): (&str, u64) = if last == 's' {
        (t.substring_char(0, n - 1), 1)
    } else if last == 'm' {
        (t.substring_char(0, n - 1), 60)
    } else if last == 'h' {
        (t.substring_char(0, n - 1), 3600)
    } else if last == 'd' {
        (t.substring_char(0, n - 1), 86400)
    } else {
        (t, 1)
    };
    proof {
        assert(t@.subrange(0, n - 1) =~= t@.drop_last());
        assert((num@, mult as nat) == split_unit(t@));
    }
    let value = match parse_u64(num) {
        Some(v) => v,
        None => {
            return Err(MutxError::InvalidDuration {
                input: String::from_str(t),
                message: String::from_str(
                    "expected format: NUMBER[s|m|h|d] (e.g., '30s', '5m', '2h', '7d')",
                ),
            });
        },
    };
    if mult != 1 && value > u64::MAX / mult {
        proof {
            assert(value * mult > u64::MAX) by (nonlinear_arith)
                requires
                    value > u64::MAX / mult,
                    mult > 1,
            ;
        }
        return Err(MutxError::InvalidDuration {
            input: String::from_str(t),
            message: String::from_str("value too large"),
        });
    }
    proof {
        if mult == 1 {
            assert(value * mult == value) by (nonlinear_arith)
                requires
                    mult == 1,
            ;
        } else {
            assert(value * mult <= u64::MAX) by (nonlinear_arith)
                requires
                    value <= u64::MAX / mult,
                    mult > 1,
            ;
        }
    }
    Ok(value * mult)
}

} // verus!
