//! Verified text utilities: string equality, substring search, and the
//! formatting helpers the adapter pipeline needs.

use vstd::prelude::*;

verus! {

/// The needle `n` occurs in `h` starting at position `i`.
pub open spec fn spec_match_at(h: Seq<char>, n: Seq<char>, i: int) -> bool {
    forall|k: int| 0 <= k < n.len() ==> h[i + k] == n[k]
}

/// The needle `n` occurs somewhere in `h`.
pub open spec fn spec_str_contains(h: Seq<char>, n: Seq<char>) -> bool {
    exists|i: int| 0 <= i <= h.len() - n.len() && spec_match_at(h, n, i)
}

/// Character-for-character equality of two string slices.
pub fn str_eq(a: &str, b: &str) -> (r: bool)
    ensures
        r <==> a@ == b@,
{
    let na: usize = a.unicode_len();
    let nb: usize = b.unicode_len();
    if na != nb {
        return false;
    }
    let mut i: usize = 0;
    while i < na
        invariant
            na == a@.len(),
            nb == b@.len(),
            na == nb,
            0 <= i <= na,
            forall|k: int| 0 <= k < i ==> a@[k] == b@[k],
        decreases na - i,
    {
        if a.get_char(i) != b.get_char(i) {
            return false;
        }
        i = i + 1;
    }
    proof {
        assert(a@ =~= b@);
    }
    true
}

/// Whether `n` occurs in `h` starting exactly at `i`.
fn match_at(h: &str, n: &str, i: usize) -> (r: bool)
    requires
        i + n@.len() <= h@.len(),
    ensures
        r == spec_match_at(h@, n@, i as int),
{
    let hl: usize = h.unicode_len();
    let nl: usize = n.unicode_len();
    let mut k: usize = 0;
    while k < nl
        invariant
            hl == h@.len(),
            nl == n@.len(),
            i + nl <= h@.len(),
            0 <= k <= nl,
            forall|m: int| 0 <= m < k ==> h@[i + m] == n@[m],
        decreases nl - k,
    {
        if h.get_char(i + k) != n.get_char(k) {
            assert(!spec_match_at(h@, n@, i as int));
            return false;
        }
        k = k + 1;
    }
    true
}

/// The character denoting one decimal digit.
pub open spec fn spec_digit_char(d: int) -> char {
    if d == 0 {
        '0'
    } else if d == 1 {
        '1'
    } else if d == 2 {
        '2'
    } else if d == 3 {
        '3'
    } else if d == 4 {
        '4'
    } else if d == 5 {
        '5'
    } else if d == 6 {
        '6'
    } else if d == 7 {
        '7'
    } else if d == 8 {
        '8'
    } else {
        '9'
    }
}

/// The decimal digit sequence denoting `n`, most significant digit first,
/// without leading zeroes (a single zero for zero itself).
pub open spec fn spec_decimal(n: nat) -> Seq<char>
    decreases n,
{
    if n < 10 {
        seq![spec_digit_char(n as int)]
    } else {
        spec_decimal(n / 10).push(spec_digit_char((n % 10) as int))
    }
}

fn digit_str(d: u32) -> (r: &'static str)
    requires
        d < 10,
    ensures
        r@ == seq![spec_digit_char(d as int)],
{
    proof {
        reveal_strlit("0");
        reveal_strlit("1");
        reveal_strlit("2");
        reveal_strlit("3");
        reveal_strlit("4");
        reveal_strlit("5");
        reveal_strlit("6");
        reveal_strlit("7");
        reveal_strlit("8");
        reveal_strlit("9");
    }
    let r: &'static str = match d {
        0u32 => "0",
        1u32 => "1",
        2u32 => "2",
        3u32 => "3",
        4u32 => "4",
        5u32 => "5",
        6u32 => "6",
        7u32 => "7",
        8u32 => "8",
        _ => "9",
    };
    proof {
        assert(r@ =~= seq![spec_digit_char(d as int)]);
    }
    r
}

/// Renders a number in decimal.
pub fn format_u32(n: u32) -> (r: String)
    ensures
        r@ == spec_decimal(n as nat),
    decreases n,
{
    if n < 10 {
        String::from_str(digit_str(n))
    } else {
        let mut s = format_u32(n / 10);
        s.append(digit_str(n % 10));
        proof {
            assert(s@ =~= spec_decimal(n as nat));
        }
        s
    }
}

/// The character denoting one hexadecimal digit, upper case.
pub open spec fn spec_hex_digit(d: int) -> char {
    if d == 0 {
        '0'
    } else if d == 1 {
        '1'
    } else if d == 2 {
        '2'
    } else if d == 3 {
        '3'
    } else if d == 4 {
        '4'
    } else if d == 5 {
        '5'
    } else if d == 6 {
        '6'
    } else if d == 7 {
        '7'
    } else if d == 8 {
        '8'
    } else if d == 9 {
        '9'
    } else if d == 10 {
        'A'
    } else if d == 11 {
        'B'
    } else if d == 12 {
        'C'
    } else if d == 13 {
        'D'
    } else if d == 14 {
        'E'
    } else {
        'F'
    }
}

/// The hexadecimal digit of `v` at position `i` of its fixed eight-digit
/// rendering, most significant first.
pub open spec fn spec_nibble(v: u32, i: int) -> int {
    ((v >> ((28 - 4 * i) as u32)) & 0xF) as int
}

/// The fixed eight-digit upper-case hexadecimal rendering of a 32-bit
/// value.
pub open spec fn spec_hex32(v: u32) -> Seq<char> {
    Seq::new(8, |i: int| spec_hex_digit(spec_nibble(v, i)))
}

fn hex_digit_str(d: u32) -> (r: &'static str)
    requires
        d < 16,
    ensures
        r@ == seq![spec_hex_digit(d as int)],
{
    proof {
        reveal_strlit("A");
        reveal_strlit("B");
        reveal_strlit("C");
        reveal_strlit("D");
        reveal_strlit("E");
        reveal_strlit("F");
    }
    if d < 10 {
        digit_str(d)
    } else {
        let r: &'static str = match d {
            10u32 => "A",
            11u32 => "B",
            12u32 => "C",
            13u32 => "D",
            14u32 => "E",
            _ => "F",
        };
        proof {
            assert(r@ =~= seq![spec_hex_digit(d as int)]);
        }
        r
    }
}

/// Renders a 32-bit value as exactly eight upper-case hexadecimal digits.
pub fn format_hex32(v: u32) -> (r: String)
    ensures
        r@ == spec_hex32(v),
{
    let mut s = String::new();
    let mut i: usize = 0;
    while i < 8
        invariant
            0 <= i <= 8,
            s@ =~= spec_hex32(v).take(i as int),
        decreases 8 - i,
    {
        let shift: u32 = 28 - 4 * (i as u32);
        let d: u32 = (v >> shift) & 0xF;
        proof {
            assert((v >> shift) & 0xF < 16) by (bit_vector);
        }
        s.append(hex_digit_str(d));
        proof {
            assert(s@ =~= spec_hex32(v).take(i + 1));
        }
        i = i + 1;
    }
    proof {
        assert(spec_hex32(v).take(8) =~= spec_hex32(v));
    }
    s
}

/// Renders an adapter identity key, given as its two 32-bit halves, in the
/// fixed textual shape the platform's performance counters key their
/// instances by.
pub fn luid_to_string(high: u32, low: u32) -> (r: String)
    ensures
        r@ == "luid_0x"@ + spec_hex32(high) + "_0x"@ + spec_hex32(low),
{
    let mut s = String::from_str("luid_0x");
    s.append(format_hex32(high).as_str());
    s.append("_0x");
    s.append(format_hex32(low).as_str());
    s
}

/// The names from position `from` on, joined with single spaces.
pub open spec fn spec_joined(names: Seq<Seq<char>>, from: int) -> Seq<char>
    decreases names.len() - from,
{
    if from < 0 || from >= names.len() {
        Seq::empty()
    } else if from == names.len() - 1 {
        names[from]
    } else {
        names[from] + " "@ + spec_joined(names, from + 1)
    }
}

/// Joins the parts from position `from` on with single spaces, as a
/// tokenised listing line is turned back into a display name.
pub fn join_from(parts: &Vec<String>, from: usize) -> (r: String)
    ensures
        r@ == spec_joined(parts@.map_values(|p: String| p@), from as int),
    decreases parts@.len() - from,
{
    let n: usize = parts.len();
    if from >= n {
        String::new()
    } else if from == n - 1 {
        parts[from].clone()
    } else {
        let mut s = parts[from].clone();
        s.append(" ");
        let rest = join_from(parts, from + 1);
        s.append(rest.as_str());
        s
    }
}

/// Builds the path of one per-adapter memory counter: the adapter-memory
/// object, the counter's instances selected by the identity-key prefix,
/// and the counter's own name.
pub fn adapter_memory_counter_path(instance: &str, counter: &str) -> (r: String)
    ensures
        r@ == "\\GPU Adapter Memory("@ + instance@ + "*)\\"@ + counter@,
{
    let mut s = String::from_str("\\GPU Adapter Memory(");
    s.append(instance);
    s.append("*)\\");
    s.append(counter);
    s
}

/// The UTF-16 code units of a character sequence. Relied on through
/// str::encode_utf16 below; the units depend on the characters alone.
pub uninterp spec fn spec_utf16_units(s: Seq<char>) -> Seq<u16>;

/// Relies on str::encode_utf16: yields the UTF-16 code units of the
/// string, without a terminator; an empty string yields no units.
#[verifier::external_body]
fn encode_utf16_units(s: &str) -> (r: Vec<u16>)
    ensures
        r@ == spec_utf16_units(s@),
        s@.len() == 0 ==> r@.len() == 0,
{
    s.encode_utf16().collect()
}

/// The UTF-16 code units of a string, with the zero terminator the
/// platform's wide-string interfaces expect.
pub fn to_utf16(s: &str) -> (r: Vec<u16>)
    ensures
        r@ == spec_utf16_units(s@).push(0u16),
{
    let mut v = encode_utf16_units(s);
    v.push(0);
    v
}

/// The characters decoded from a sequence of UTF-16 code units, with
/// replacement characters for invalid units. Relied on through
/// String::from_utf16_lossy below; the characters depend on the units
/// alone.
pub uninterp spec fn spec_utf16_lossy(units: Seq<u16>) -> Seq<char>;

/// Relies on String::from_utf16_lossy: decodes UTF-16 code units,
/// replacing invalid data with replacement characters.
#[verifier::external_body]
fn decode_utf16_lossy(units: &[u16]) -> (r: String)
    ensures
        r@ == spec_utf16_lossy(units@),
{
    String::from_utf16_lossy(units)
}

/// Decodes the prefix of a fixed-size wide-string buffer up to its first
/// zero unit (or the whole buffer when no zero occurs), as the platform's
/// adapter descriptions are stored.
pub fn wide_to_string(buf: &[u16]) -> (r: String)
    ensures
        exists|end: int|
            {
                &&& 0 <= end <= buf@.len()
                &&& (end == buf@.len() || buf@[end] == 0)
                &&& (forall|m: int| 0 <= m < end ==> buf@[m] != 0)
                &&& r@ == spec_utf16_lossy(#[trigger] buf@.take(end))
            },
{
    let n: usize = buf.len();
    let mut end: usize = n;
    let mut i: usize = 0;
    while i < n && end == n
        invariant
            n == buf@.len(),
            0 <= i <= n,
            end <= n,
            end == n ==> forall|m: int| 0 <= m < i ==> buf@[m] != 0,
            end < n ==> buf@[end as int] == 0 && (forall|m: int| 0 <= m < end ==> buf@[m] != 0),
        decreases n - i,
    {
        if buf[i] == 0 {
            end = i;
        }
        i = i + 1;
    }
    let prefix = vstd::slice::slice_subrange(buf, 0, end);
    let r = decode_utf16_lossy(prefix);
    proof {
        assert(buf@.take(end as int) =~= prefix@);
        assert(r@ == spec_utf16_lossy(buf@.take(end as int)));
    }
    r
}

/// Substring search: whether the needle `n` occurs anywhere in `h`.
pub fn str_contains(h: &str, n: &str) -> (r: bool)
    ensures
        r == spec_str_contains(h@, n@),
{
    let hl: usize = h.unicode_len();
    let nl: usize = n.unicode_len();
    if nl > hl {
        return false;
    }
    if nl == 0 {
        assert(spec_match_at(h@, n@, 0));
        return true;
    }
    let mut i: usize = 0;
    while i <= hl - nl
        invariant
            hl == h@.len(),
            nl == n@.len(),
            0 < nl <= hl,
            0 <= i <= hl - nl + 1,
            forall|j: int| 0 <= j < i ==> !spec_match_at(h@, n@, j),
        decreases hl - nl - i + 1,
    {
        if match_at(h, n, i) {
            return true;
        }
        i = i + 1;
    }
    false
}

} // verus!
