//! Calendar timestamps, rendered on the wire as `YYYY-MM-DDTHH:MM:SSZ`.
//!
//! The wire form is the RFC 3339 UTC profile with a literal `Z` suffix; this
//! library both emits and accepts exactly that shape.
use vstd::prelude::*;
use crate::num::{digit_char, char_digit};
use crate::json::is_digit;

verus! {

broadcast use vstd::seq::group_seq_axioms, vstd::std_specs::vec::group_vec_axioms;

/// A second-precision UTC timestamp, held as plain calendar fields.
#[derive(Debug, Clone, Copy, PartialEq, Eq, Structural)]
pub struct Timestamp {
    pub year: u32,
    pub month: u32,
    pub day: u32,
    pub hour: u32,
    pub minute: u32,
    pub second: u32,
}

/// Fields within the ranges the wire format can carry.
pub open spec fn ts_wf(t: Timestamp) -> bool {
    &&& t.year <= 9999
    &&& 1 <= t.month <= 12
    &&& 1 <= t.day <= 31
    &&& t.hour <= 23
    &&& t.minute <= 59
    &&& t.second <= 59
}

/// Two zero-padded decimal digits.
pub open spec fn pad2(n: int) -> Seq<char> {
    seq![digit_char(n / 10), digit_char(n % 10)]
}

/// The wire text of a timestamp, character by character.
pub open spec fn ts_render(t: Timestamp) -> Seq<char> {
    seq![
        digit_char(t.year as int / 1000),
        digit_char((t.year as int / 100) % 10),
        digit_char((t.year as int / 10) % 10),
        digit_char(t.year as int % 10),
        '-',
        digit_char(t.month as int / 10),
        digit_char(t.month as int % 10),
        '-',
        digit_char(t.day as int / 10),
        digit_char(t.day as int % 10),
        'T',
        digit_char(t.hour as int / 10),
        digit_char(t.hour as int % 10),
        ':',
        digit_char(t.minute as int / 10),
        digit_char(t.minute as int % 10),
        ':',
        digit_char(t.second as int / 10),
        digit_char(t.second as int % 10),
        'Z',
    ]
}

/// The value of two digit characters.
pub open spec fn two(s: Seq<char>, i: int) -> int {
    char_digit(s[i]) * 10 + char_digit(s[i + 1])
}

/// Whether the characters at `i..i+n` are all digits.
pub open spec fn digits_at(s: Seq<char>, i: int, n: int) -> bool {
    forall|q: int| i <= q < i + n ==> is_digit(#[trigger] s[q])
}

/// Parse wire text as a timestamp: exactly the 20-character form above,
/// with all fields in range.
pub open spec fn ts_parse(s: Seq<char>) -> Option<Timestamp> {
    if s.len() == 20 && digits_at(s, 0, 4) && s[4] == '-' && digits_at(s, 5, 2) && s[7] == '-'
        && digits_at(s, 8, 2) && s[10] == 'T' && digits_at(s, 11, 2) && s[13] == ':' && digits_at(
        s,
        14,
        2,
    ) && s[16] == ':' && digits_at(s, 17, 2) && s[19] == 'Z' {
        let t = Timestamp {
            year: (char_digit(s[0]) * 1000 + char_digit(s[1]) * 100 + char_digit(s[2]) * 10
                + char_digit(s[3])) as u32,
            month: two(s, 5) as u32,
            day: two(s, 8) as u32,
            hour: two(s, 11) as u32,
            minute: two(s, 14) as u32,
            second: two(s, 17) as u32,
        };
        if ts_wf(t) {
            Some(t)
        } else {
            None
        }
    } else {
        None
    }
}

impl Timestamp {
    /// A timestamp from calendar fields.
    pub fn new(year: u32, month: u32, day: u32, hour: u32, minute: u32, second: u32) -> (r:
        Timestamp)
        ensures
            r == (Timestamp { year, month, day, hour, minute, second }),
    {
        Timestamp { year, month, day, hour, minute, second }
    }
}

/// Push two zero-padded digits of `n`.
fn push2(n: u32, v: &mut Vec<char>)
    requires
        n < 100,
    ensures
        final(v)@ == old(v)@ + pad2(n as int),
{
    v.push((((n / 10) as u8) + 48) as char);
    v.push((((n % 10) as u8) + 48) as char);
    assert(v@ =~= old(v)@ + pad2(n as int));
}

/// Render a timestamp to its wire text.
pub fn ts_to_chars(t: &Timestamp, v: &mut Vec<char>)
    requires
        ts_wf(*t),
    ensures
        final(v)@ == old(v)@ + ts_render(*t),
{
    v.push((((t.year / 1000) as u8) + 48) as char);
    v.push(((((t.year / 100) % 10) as u8) + 48) as char);
    v.push(((((t.year / 10) % 10) as u8) + 48) as char);
    v.push((((t.year % 10) as u8) + 48) as char);
    v.push('-');
    push2(t.month, v);
    v.push('-');
    push2(t.day, v);
    v.push('T');
    push2(t.hour, v);
    v.push(':');
    push2(t.minute, v);
    v.push(':');
    push2(t.second, v);
    v.push('Z');
    assert(v@ =~= old(v)@ + ts_render(*t));
}

/// Read two digit characters as a number below 100.
fn read2(s: &Vec<char>, i: usize) -> (r: u32)
    requires
        i + 2 <= s@.len(),
        digits_at(s@, i as int, 2),
    ensures
        r == two(s@, i as int),
        r < 100,
{
    let n = s.len();
    assert(is_digit(s@[i as int]) && is_digit(s@[i + 1]));
    let a = s[i] as u32 - 48;
    let b = s[i + 1] as u32 - 48;
    a * 10 + b
}

/// Whether the character at `i` is a digit.
fn digit_at(s: &Vec<char>, i: usize) -> (r: bool)
    requires
        i < s@.len(),
    ensures
        r == is_digit(s@[i as int]),
{
    let u = s[i] as u32;
    48 <= u && u <= 57
}

/// Parse wire text as a timestamp.
pub fn ts_from_chars(s: &Vec<char>) -> (r: Option<Timestamp>)
    ensures
        r == ts_parse(s@),
{
    if s.len() != 20 {
        return None;
    }
    if !(digit_at(s, 0) && digit_at(s, 1) && digit_at(s, 2) && digit_at(s, 3)) {
        assert(!digits_at(s@, 0, 4));
        return None;
    }
    if !(digit_at(s, 5) && digit_at(s, 6)) {
        assert(!digits_at(s@, 5, 2));
        return None;
    }
    if !(digit_at(s, 8) && digit_at(s, 9)) {
        assert(!digits_at(s@, 8, 2));
        return None;
    }
    if !(digit_at(s, 11) && digit_at(s, 12)) {
        assert(!digits_at(s@, 11, 2));
        return None;
    }
    if !(digit_at(s, 14) && digit_at(s, 15)) {
        assert(!digits_at(s@, 14, 2));
        return None;
    }
    if !(digit_at(s, 17) && digit_at(s, 18)) {
        assert(!digits_at(s@, 17, 2));
        return None;
    }
    if !(s[4] == '-' && s[7] == '-' && s[10] == 'T' && s[13] == ':' && s[16] == ':' && s[19]
        == 'Z') {
        return None;
    }
    assert(digits_at(s@, 0, 4) && digits_at(s@, 5, 2) && digits_at(s@, 8, 2) && digits_at(s@, 11, 2)
        && digits_at(s@, 14, 2) && digits_at(s@, 17, 2));
    let y = (s[0] as u32 - 48) * 1000 + (s[1] as u32 - 48) * 100 + (s[2] as u32 - 48) * 10 + (
    s[3] as u32 - 48);
    let t = Timestamp {
        year: y,
        month: read2(s, 5),
        day: read2(s, 8),
        hour: read2(s, 11),
        minute: read2(s, 14),
        second: read2(s, 17),
    };
    if 1 <= t.month && t.month <= 12 && 1 <= t.day && t.day <= 31 && t.hour <= 23 && t.minute <= 59
        && t.second <= 59 {
        assert(y <= 9999);
        Some(t)
    } else {
        None
    }
}

/// A two-digit rendering reads back as its value.
#[verifier::rlimit(50)]
proof fn lemma_field2(s: Seq<char>, i: int, n: int)
    requires
        0 <= n < 100,
        0 <= i,
        i + 2 <= s.len(),
        s[i] == digit_char(n / 10),
        s[i + 1] == digit_char(n % 10),
    ensures
        digits_at(s, i, 2),
        two(s, i) == n,
{
    crate::num::lemma_digit_char_digit(n / 10);
    crate::num::lemma_digit_char_digit(n % 10);
}

/// A four-digit rendering reads back as its value.
#[verifier::rlimit(100)]
proof fn lemma_field4(s: Seq<char>, i: int, n: int)
    requires
        0 <= n <= 9999,
        0 <= i,
        i + 4 <= s.len(),
        s[i] == digit_char(n / 1000),
        s[i + 1] == digit_char((n / 100) % 10),
        s[i + 2] == digit_char((n / 10) % 10),
        s[i + 3] == digit_char(n % 10),
    ensures
        digits_at(s, i, 4),
        char_digit(s[i]) * 1000 + char_digit(s[i + 1]) * 100 + char_digit(s[i + 2]) * 10
            + char_digit(s[i + 3]) == n,
{
    crate::num::lemma_digit_char_digit(n / 1000);
    crate::num::lemma_digit_char_digit((n / 100) % 10);
    crate::num::lemma_digit_char_digit((n / 10) % 10);
    crate::num::lemma_digit_char_digit(n % 10);
}

/// Rendering then parsing a well-formed timestamp yields it back.
#[verifier::rlimit(100)]
pub proof fn lemma_ts_roundtrip(t: Timestamp)
    requires
        ts_wf(t),
    ensures
        ts_parse(ts_render(t)) == Some(t),
{
    let s = ts_render(t);
    assert(s.len() == 20);
    lemma_field4(s, 0, t.year as int);
    lemma_field2(s, 5, t.month as int);
    lemma_field2(s, 8, t.day as int);
    lemma_field2(s, 11, t.hour as int);
    lemma_field2(s, 14, t.minute as int);
    lemma_field2(s, 17, t.second as int);
    assert(s[4] == '-' && s[7] == '-' && s[10] == 'T' && s[13] == ':' && s[16] == ':' && s[19]
        == 'Z');
}

} // verus!
