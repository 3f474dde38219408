//! Parsing of dotted driver-version strings.
//!
//! The vendor management library reports its driver version as text such as
//! `570.86.15`. The first two dot-separated segments are read as unsigned
//! numbers; a missing second segment, an empty segment, a non-digit
//! character in either segment or a value beyond 64 bits makes the whole
//! parse fail, which the vendor path treats as one more reason to fall back.

use vstd::prelude::*;

verus! {

/// The character is a decimal digit.
pub open spec fn spec_is_digit(c: char) -> bool {
    48 <= c as int <= 57
}

/// Every character of the sequence is a decimal digit.
pub open spec fn spec_all_digits(s: Seq<char>) -> bool {
    forall|i: int| 0 <= i < s.len() ==> spec_is_digit(#[trigger] s[i])
}

/// The number denoted by a digit sequence, most significant digit first.
pub open spec fn spec_dec_val(s: Seq<char>) -> nat
    decreases s.len(),
{
    if s.len() == 0 {
        0
    } else {
        (spec_dec_val(s.drop_last()) * 10 + (s.last() as int - 48)) as nat
    }
}

/// The number a segment parses to: it must be non-empty, all digits, and
/// fit in 64 bits.
pub open spec fn spec_parse_u64(s: Seq<char>) -> Option<u64> {
    if s.len() > 0 && spec_all_digits(s) && spec_dec_val(s) <= u64::MAX {
        Some(spec_dec_val(s) as u64)
    } else {
        None
    }
}

/// `d` is the first dot at or after `from`.
pub open spec fn spec_first_dot_at(s: Seq<char>, from: int, d: int) -> bool {
    &&& from <= d < s.len()
    &&& s[d] == '.'
    &&& forall|m: int| from <= m < d ==> s[m] != '.'
}

/// Some dot stands at or after `from`.
pub open spec fn spec_has_dot(s: Seq<char>, from: int) -> bool {
    exists|d: int| spec_first_dot_at(s, from, d)
}

/// Where the second segment ends: at the next dot, or at the end of the
/// string when no further dot follows.
pub open spec fn spec_segment_end(s: Seq<char>, from: int) -> int {
    if spec_has_dot(s, from) {
        choose|e: int| spec_first_dot_at(s, from, e)
    } else {
        s.len() as int
    }
}

/// The (major, minor) pair a dotted version string parses to: the segments
/// before the first dot and between the first dot and the next one (or the
/// end), both read as numbers.
pub open spec fn spec_parse_driver_version(s: Seq<char>) -> Option<(u64, u64)> {
    if !spec_has_dot(s, 0) {
        None
    } else {
        let d = choose|d: int| spec_first_dot_at(s, 0, d);
        let e = spec_segment_end(s, d + 1);
        match (spec_parse_u64(s.take(d)), spec_parse_u64(s.subrange(d + 1, e))) {
            (Some(major), Some(minor)) => Some((major, minor)),
            _ => None,
        }
    }
}

/// The first dot after a position is unique.
proof fn lemma_first_dot_unique(s: Seq<char>, from: int, d1: int, d2: int)
    requires
        spec_first_dot_at(s, from, d1),
        spec_first_dot_at(s, from, d2),
    ensures
        d1 == d2,
{
}

/// A position known to be the first dot is the one the specification
/// denotes.
proof fn lemma_first_dot_choose(s: Seq<char>, from: int, d: int)
    requires
        spec_first_dot_at(s, from, d),
    ensures
        spec_has_dot(s, from),
        (choose|x: int| spec_first_dot_at(s, from, x)) == d,
{
    assert(spec_has_dot(s, from));
    let x = choose|x: int| spec_first_dot_at(s, from, x);
    lemma_first_dot_unique(s, from, x, d);
}

/// For a digit sequence, the number denoted by a prefix never exceeds the
/// number denoted by the whole.
proof fn lemma_dec_val_prefix(s: Seq<char>, k: int)
    requires
        0 <= k <= s.len(),
        spec_all_digits(s),
    ensures
        spec_dec_val(s.take(k)) <= spec_dec_val(s),
    decreases s.len() - k,
{
    if k == s.len() {
        assert(s.take(k) =~= s);
    } else {
        lemma_dec_val_prefix(s, k + 1);
        assert(s.take(k + 1).drop_last() =~= s.take(k));
        assert(s.take(k + 1).last() == s[k]);
        assert(spec_is_digit(s[k]));
    }
}

fn is_digit_char(c: char) -> (r: bool)
    ensures
        r == spec_is_digit(c),
{
    let v: u32 = c as u32;
    48 <= v && v <= 57
}

/// Finds the first dot at or after `from`, or reports that none follows.
fn find_dot(s: &str, from: usize) -> (r: Option<usize>)
    requires
        from <= s@.len(),
    ensures
        match r {
            Some(d) => spec_first_dot_at(s@, from as int, d as int),
            None => !spec_has_dot(s@, from as int),
        },
{
    let n: usize = s.unicode_len();
    let mut i: usize = from;
    while i < n
        invariant
            n == s@.len(),
            from <= i <= n,
            forall|m: int| from <= m < i ==> s@[m] != '.',
        decreases n - i,
    {
        if s.get_char(i) == '.' {
            return Some(i);
        }
        i = i + 1;
    }
    None
}

/// Reads the segment `[start, end)` of `s` as an unsigned number.
fn parse_segment(s: &str, start: usize, end: usize) -> (r: Option<u64>)
    requires
        start <= end <= s@.len(),
    ensures
        r == spec_parse_u64(s@.subrange(start as int, end as int)),
{
    let ghost seg = s@.subrange(start as int, end as int);
    if start == end {
        return None;
    }
    let mut val: u64 = 0;
    let mut i: usize = start;
    while i < end
        invariant
            start <= i <= end <= s@.len(),
            seg == s@.subrange(start as int, end as int),
            forall|m: int| start <= m < i ==> spec_is_digit(#[trigger] s@[m]),
            val == spec_dec_val(s@.subrange(start as int, i as int)),
        decreases end - i,
    {
        let c = s.get_char(i);
        if !is_digit_char(c) {
            proof {
                assert(seg[i - start] == s@[i as int]);
                assert(!spec_all_digits(seg));
            }
            return None;
        }
        let d: u64 = ((c as u32) - 48) as u64;
        proof {
            assert(s@.subrange(start as int, i + 1).drop_last()
                =~= s@.subrange(start as int, i as int));
            assert(s@.subrange(start as int, i + 1).last() == s@[i as int]);
        }
        if val > (u64::MAX - d) / 10 {
            proof {
                assert(val * 10 + d > u64::MAX);
                if spec_all_digits(seg) {
                    assert(seg.take(i + 1 - start) =~= s@.subrange(start as int, i + 1));
                    lemma_dec_val_prefix(seg, i + 1 - start);
                    assert(spec_dec_val(seg) > u64::MAX);
                }
            }
            return None;
        }
        proof {
            assert(val * 10 + d <= u64::MAX);
        }
        val = val * 10 + d;
        i = i + 1;
    }
    proof {
        assert(s@.subrange(start as int, end as int) =~= seg);
        assert(forall|m: int| 0 <= m < seg.len() ==> #[trigger] seg[m] == s@[start + m]);
        assert(spec_all_digits(seg));
    }
    Some(val)
}

/// Parses a dotted driver-version string into its first two segments.
pub fn parse_driver_version(s: &str) -> (r: Option<(u64, u64)>)
    ensures
        r == spec_parse_driver_version(s@),
{
    let d: usize = match find_dot(s, 0) {
        Some(d) => d,
        None => {
            return None;
        },
    };
    proof {
        lemma_first_dot_choose(s@, 0, d as int);
    }
    let n: usize = s.unicode_len();
    let e: usize = match find_dot(s, d + 1) {
        Some(e) => {
            proof {
                lemma_first_dot_choose(s@, d + 1, e as int);
            }
            e
        },
        None => n,
    };
    proof {
        assert(e as int == spec_segment_end(s@, d + 1));
        assert(s@.take(d as int) =~= s@.subrange(0, d as int));
    }
    let major = match parse_segment(s, 0, d) {
        Some(v) => v,
        None => {
            return None;
        },
    };
    let minor = match parse_segment(s, d + 1, e) {
        Some(v) => v,
        None => {
            return None;
        },
    };
    Some((major, minor))
}

} // verus!
