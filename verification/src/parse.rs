//! Parsing JSON text into trees. The parser is a recursive descent over
//! characters; its behaviour is specified exactly by the `sp_*` spec
//! functions below, which the executable functions mirror step for step.
//!
//! The spec functions carry index guards (`j <= i`) that make termination
//! evident; the bounds lemma shows those branches are never taken.
use vstd::prelude::*;
use crate::json::{Json, JsonV, is_digit};

verus! {

broadcast use vstd::seq::group_seq_axioms, vstd::std_specs::vec::group_vec_axioms;

/// JSON insignificant whitespace.
pub open spec fn is_ws(c: char) -> bool {
    c == ' ' || c == '\t' || c == '\n' || c == '\r'
}

/// The first index at or after `i` holding a non-whitespace character.
pub open spec fn sp_ws(s: Seq<char>, i: int) -> int
    decreases s.len() - i,
{
    if 0 <= i < s.len() && is_ws(s[i]) {
        sp_ws(s, i + 1)
    } else {
        i
    }
}

/// The first index at or after `i` holding a non-digit character.
pub open spec fn sp_digits(s: Seq<char>, i: int) -> int
    decreases s.len() - i,
{
    if 0 <= i < s.len() && is_digit(s[i]) {
        sp_digits(s, i + 1)
    } else {
        i
    }
}

/// The character denoted by a single-character escape code, if any.
pub open spec fn esc_code(e: char) -> Option<char> {
    if e == '"' {
        Some('"')
    } else if e == '\\' {
        Some('\\')
    } else if e == '/' {
        Some('/')
    } else if e == 'b' {
        Some('\u{8}')
    } else if e == 'f' {
        Some('\u{c}')
    } else if e == 'n' {
        Some('\n')
    } else if e == 'r' {
        Some('\r')
    } else if e == 't' {
        Some('\t')
    } else {
        None
    }
}

/// The value of one hexadecimal digit character.
pub open spec fn hex_val(c: char) -> Option<u32> {
    let u = c as u32;
    if 48 <= u && u <= 57 {
        Some((u - 48) as u32)
    } else if 97 <= u && u <= 102 {
        Some((u - 87) as u32)
    } else if 65 <= u && u <= 70 {
        Some((u - 55) as u32)
    } else {
        None
    }
}

/// The value of the four hexadecimal digits at `i`.
pub open spec fn sp_hex4(s: Seq<char>, i: int) -> Option<u32> {
    if 0 <= i && i + 4 <= s.len() {
        match (hex_val(s[i]), hex_val(s[i + 1]), hex_val(s[i + 2]), hex_val(s[i + 3])) {
            (Some(a), Some(b), Some(c), Some(d)) => Some(
                (a * 4096 + b * 256 + c * 16 + d) as u32,
            ),
            _ => None,
        }
    } else {
        None
    }
}

/// Parse the body of a string literal starting at `i` (after the opening
/// quote): the decoded characters and the index after the closing quote.
pub open spec fn sp_string_body(s: Seq<char>, i: int) -> Option<(Seq<char>, int)>
    decreases s.len() - i,
{
    if !(0 <= i < s.len()) {
        None
    } else {
        let c = s[i];
        if c == '"' {
            Some((Seq::empty(), i + 1))
        } else if c == '\\' {
            if i + 1 >= s.len() {
                None
            } else {
                let e = s[i + 1];
                if e == 'u' {
                    match sp_hex4(s, i + 2) {
                        Some(v) => if 0xD800 <= v && v < 0xE000 {
                            None
                        } else {
                            match sp_string_body(s, i + 6) {
                                Some((t, j)) => Some((seq![v as char] + t, j)),
                                None => None,
                            }
                        },
                        None => None,
                    }
                } else {
                    match esc_code(e) {
                        Some(c2) => match sp_string_body(s, i + 2) {
                            Some((t, j)) => Some((seq![c2] + t, j)),
                            None => None,
                        },
                        None => None,
                    }
                }
            }
        } else if (c as u32) < 32 {
            None
        } else {
            match sp_string_body(s, i + 1) {
                Some((t, j)) => Some((seq![c] + t, j)),
                None => None,
            }
        }
    }
}

/// Parse a number lexeme starting at `i`: the lexeme itself and the index
/// after it, following the JSON number grammar.
pub open spec fn sp_number(s: Seq<char>, i: int) -> Option<(Seq<char>, int)> {
    if !(0 <= i < s.len()) {
        None
    } else {
        let i0 = if s[i] == '-' {
            i + 1
        } else {
            i
        };
        let i1 = if i0 < s.len() && s[i0] == '0' {
            i0 + 1
        } else {
            sp_digits(s, i0)
        };
        if i1 == i0 {
            None
        } else {
            let i2 = if i1 < s.len() && s[i1] == '.' {
                sp_digits(s, i1 + 1)
            } else {
                i1
            };
            if i1 < s.len() && s[i1] == '.' && i2 == i1 + 1 {
                None
            } else {
                let i3 = if i2 < s.len() && (s[i2] == 'e' || s[i2] == 'E') {
                    let i2s = if i2 + 1 < s.len() && (s[i2 + 1] == '+' || s[i2 + 1] == '-') {
                        i2 + 2
                    } else {
                        i2 + 1
                    };
                    sp_digits(s, i2s)
                } else {
                    i2
                };
                if i2 < s.len() && (s[i2] == 'e' || s[i2] == 'E') && (i3 == i2 + 1 || (i2 + 1
                    < s.len() && (s[i2 + 1] == '+' || s[i2 + 1] == '-') && i3 == i2 + 2)) {
                    None
                } else {
                    Some((s.subrange(i, i3), i3))
                }
            }
        }
    }
}

/// Parse one JSON value starting exactly at `i` (no leading whitespace).
pub open spec fn sp_value(s: Seq<char>, i: int) -> Option<(JsonV, int)>
    decreases s.len() - i, 2int,
{
    if !(0 <= i < s.len()) {
        None
    } else {
        let c = s[i];
        if c == 'n' {
            if i + 4 <= s.len() && s[i + 1] == 'u' && s[i + 2] == 'l' && s[i + 3] == 'l' {
                Some((JsonV::Null, i + 4))
            } else {
                None
            }
        } else if c == 't' {
            if i + 4 <= s.len() && s[i + 1] == 'r' && s[i + 2] == 'u' && s[i + 3] == 'e' {
                Some((JsonV::Bool(true), i + 4))
            } else {
                None
            }
        } else if c == 'f' {
            if i + 5 <= s.len() && s[i + 1] == 'a' && s[i + 2] == 'l' && s[i + 3] == 's' && s[i + 4]
                == 'e' {
                Some((JsonV::Bool(false), i + 5))
            } else {
                None
            }
        } else if c == '"' {
            match sp_string_body(s, i + 1) {
                Some((t, j)) => Some((JsonV::Str(t), j)),
                None => None,
            }
        } else if c == '[' {
            let k = sp_ws(s, i + 1);
            if k <= i || k > s.len() {
                None
            } else if k < s.len() && s[k] == ']' {
                Some((JsonV::Arr(Seq::empty()), k + 1))
            } else {
                match sp_elems(s, k) {
                    Some((es, j)) => Some((JsonV::Arr(es), j)),
                    None => None,
                }
            }
        } else if c == '{' {
            let k = sp_ws(s, i + 1);
            if k <= i || k > s.len() {
                None
            } else if k < s.len() && s[k] == '}' {
                Some((JsonV::Obj(Seq::empty()), k + 1))
            } else {
                match sp_members(s, k) {
                    Some((ms, j)) => Some((JsonV::Obj(ms), j)),
                    None => None,
                }
            }
        } else if c == '-' || is_digit(c) {
            match sp_number(s, i) {
                Some((lex, j)) => Some((JsonV::Num(lex), j)),
                None => None,
            }
        } else {
            None
        }
    }
}

/// Parse a non-empty, comma-separated element list and its closing `]`.
pub open spec fn sp_elems(s: Seq<char>, i: int) -> Option<(Seq<JsonV>, int)>
    decreases s.len() - i, 3int,
{
    match sp_value(s, i) {
        None => None,
        Some((v0, j)) => if j <= i || j > s.len() {
            None
        } else {
            let k = sp_ws(s, j);
            if k < s.len() && s[k] == ',' {
                let k2 = sp_ws(s, k + 1);
                if k2 <= i || k2 > s.len() {
                    None
                } else {
                    match sp_elems(s, k2) {
                        None => None,
                        Some((rest, j2)) => Some((seq![v0] + rest, j2)),
                    }
                }
            } else if k < s.len() && s[k] == ']' {
                Some((seq![v0], k + 1))
            } else {
                None
            }
        },
    }
}

/// Parse a non-empty, comma-separated member list and its closing `}`.
pub open spec fn sp_members(s: Seq<char>, i: int) -> Option<(Seq<(Seq<char>, JsonV)>, int)>
    decreases s.len() - i, 3int,
{
    if !(0 <= i < s.len()) || s[i] != '"' {
        None
    } else {
        match sp_string_body(s, i + 1) {
            None => None,
            Some((key, j)) => if j <= i || j > s.len() {
                None
            } else {
                let k = sp_ws(s, j);
                if k < s.len() && s[k] == ':' {
                    let k2 = sp_ws(s, k + 1);
                    if k2 <= i || k2 > s.len() {
                        None
                    } else {
                        match sp_value(s, k2) {
                            None => None,
                            Some((v0, j2)) => if j2 <= i || j2 > s.len() {
                                None
                            } else {
                                let k3 = sp_ws(s, j2);
                                if k3 < s.len() && s[k3] == ',' {
                                    let k4 = sp_ws(s, k3 + 1);
                                    if k4 <= i || k4 > s.len() {
                                        None
                                    } else {
                                        match sp_members(s, k4) {
                                            None => None,
                                            Some((rest, j3)) => Some(
                                                (seq![(key, v0)] + rest, j3),
                                            ),
                                        }
                                    }
                                } else if k3 < s.len() && s[k3] == '}' {
                                    Some((seq![(key, v0)], k3 + 1))
                                } else {
                                    None
                                }
                            },
                        }
                    }
                } else {
                    None
                }
            },
        }
    }
}

/// Parse a whole text as one JSON value, allowing surrounding whitespace.
pub open spec fn sp_json(s: Seq<char>) -> Option<JsonV> {
    let i = sp_ws(s, 0);
    match sp_value(s, i) {
        None => None,
        Some((j, e)) => if sp_ws(s, e) == s.len() {
            Some(j)
        } else {
            None
        },
    }
}

/// Relies on `char::from_u32`: it returns `Some` exactly for Unicode scalar
/// values (below the surrogate range, or from its end up to 0x110000), and
/// the returned character has the given scalar value.
#[verifier::external_body]
fn char_from_u32(v: u32) -> (r: Option<char>)
    ensures
        r is Some <==> (v < 0xD800 || (0xE000 <= v && v < 0x110000)),
        r matches Some(c) ==> c as u32 == v,
{
    char::from_u32(v)
}

/// Skip whitespace from `i`.
fn ws_skip(s: &Vec<char>, i: usize) -> (k: usize)
    requires
        i <= s@.len(),
    ensures
        k as int == sp_ws(s@, i as int),
        i <= k <= s@.len(),
    decreases s@.len() - i,
{
    if i < s.len() {
        let c = s[i];
        if c == ' ' || c == '\t' || c == '\n' || c == '\r' {
            return ws_skip(s, i + 1);
        }
    }
    i
}

/// Skip decimal digits from `i`.
fn digits_skip(s: &Vec<char>, i: usize) -> (k: usize)
    requires
        i <= s@.len(),
    ensures
        k as int == sp_digits(s@, i as int),
        i <= k <= s@.len(),
    decreases s@.len() - i,
{
    if i < s.len() {
        let cu = s[i] as u32;
        if 48 <= cu && cu <= 57 {
            return digits_skip(s, i + 1);
        }
    }
    i
}

/// The value of one hexadecimal digit character.
fn hex_digit(c: char) -> (r: Option<u32>)
    ensures
        r == hex_val(c),
        r matches Some(v) ==> v < 16,
{
    let u = c as u32;
    if 48 <= u && u <= 57 {
        Some(u - 48)
    } else if 97 <= u && u <= 102 {
        Some(u - 87)
    } else if 65 <= u && u <= 70 {
        Some(u - 55)
    } else {
        None
    }
}

/// Read the four hexadecimal digits at `i`.
fn parse_hex4(s: &Vec<char>, i: usize) -> (r: Option<u32>)
    requires
        i <= s@.len(),
    ensures
        r == sp_hex4(s@, i as int),
{
    if s.len() - i >= 4 {
        let a = hex_digit(s[i]);
        let b = hex_digit(s[i + 1]);
        let c = hex_digit(s[i + 2]);
        let d = hex_digit(s[i + 3]);
        match (a, b, c, d) {
            (Some(a), Some(b), Some(c), Some(d)) => Some(a * 4096 + b * 256 + c * 16 + d),
            _ => None,
        }
    } else {
        None
    }
}

/// Decode a string-literal body starting at `i`, appending the decoded
/// characters to `out` and returning the index after the closing quote.
fn parse_string_body(s: &Vec<char>, i: usize, out: &mut Vec<char>) -> (r: Option<usize>)
    requires
        i <= s@.len(),
    ensures
        match r {
            Some(j) => {
                &&& i < j <= s@.len()
                &&& match sp_string_body(s@, i as int) {
                    Some((t, je)) => je == j as int && final(out)@ == old(out)@ + t,
                    None => false,
                }
            },
            None => sp_string_body(s@, i as int) is None,
        },
    decreases s@.len() - i,
{
    if i >= s.len() {
        return None;
    }
    let c = s[i];
    if c == '"' {
        proof {
            assert(old(out)@ + Seq::<char>::empty() =~= old(out)@);
        }
        Some(i + 1)
    } else if c == '\\' {
        if i + 1 >= s.len() {
            return None;
        }
        let e = s[i + 1];
        if e == 'u' {
            match parse_hex4(s, i + 2) {
                Some(v) => {
                    if 0xD800 <= v && v < 0xE000 {
                        return None;
                    }
                    match char_from_u32(v) {
                        Some(c2) => {
                            proof {
                                vstd::utf8::char_u32_cast(c2, v);
                            }
                            out.push(c2);
                            let r = parse_string_body(s, i + 6, out);
                            proof {
                                if let Some((t, je)) = sp_string_body(s@, i as int + 6) {
                                    assert(old(out)@.push(c2) + t =~= old(out)@ + (seq![
                                        v as char,
                                    ] + t));
                                }
                            }
                            r
                        },
                        None => {
                            proof {
                                assert(false);
                            }
                            None
                        },
                    }
                },
                None => None,
            }
        } else {
            let dec: Option<char> = if e == '"' {
                Some('"')
            } else if e == '\\' {
                Some('\\')
            } else if e == '/' {
                Some('/')
            } else if e == 'b' {
                Some('\u{8}')
            } else if e == 'f' {
                Some('\u{c}')
            } else if e == 'n' {
                Some('\n')
            } else if e == 'r' {
                Some('\r')
            } else if e == 't' {
                Some('\t')
            } else {
                None
            };
            assert(dec == esc_code(e));
            match dec {
                Some(c2) => {
                    out.push(c2);
                    let r = parse_string_body(s, i + 2, out);
                    proof {
                        if let Some((t, je)) = sp_string_body(s@, i as int + 2) {
                            assert(old(out)@.push(c2) + t =~= old(out)@ + (seq![c2] + t));
                        }
                    }
                    r
                },
                None => None,
            }
        }
    } else if (c as u32) < 32 {
        None
    } else {
        out.push(c);
        let r = parse_string_body(s, i + 1, out);
        proof {
            if let Some((t, je)) = sp_string_body(s@, i as int + 1) {
                assert(old(out)@.push(c) + t =~= old(out)@ + (seq![c] + t));
            }
        }
        r
    }
}

/// Copy the characters `s[a..b]`.
fn copy_range(s: &Vec<char>, a: usize, b: usize) -> (r: Vec<char>)
    requires
        a <= b <= s@.len(),
    ensures
        r@ == s@.subrange(a as int, b as int),
{
    let mut r: Vec<char> = Vec::new();
    let mut i: usize = a;
    while i < b
        invariant
            a <= i <= b <= s@.len(),
            r@ == s@.subrange(a as int, i as int),
        decreases b - i,
    {
        r.push(s[i]);
        proof {
            assert(s@.subrange(a as int, i + 1) =~= s@.subrange(a as int, i as int).push(
                s@[i as int],
            ));
        }
        i = i + 1;
    }
    r
}

/// Read a number lexeme starting at `i`.
fn parse_number(s: &Vec<char>, i: usize) -> (r: Option<(Vec<char>, usize)>)
    requires
        i <= s@.len(),
    ensures
        match r {
            Some((lex, j)) => {
                &&& i < j <= s@.len()
                &&& sp_number(s@, i as int) == Some((lex@, j as int))
            },
            None => sp_number(s@, i as int) is None,
        },
{
    if i >= s.len() {
        return None;
    }
    let i0: usize = if s[i] == '-' {
        i + 1
    } else {
        i
    };
    let i1: usize = if i0 < s.len() && s[i0] == '0' {
        i0 + 1
    } else {
        digits_skip(s, i0)
    };
    if i1 == i0 {
        return None;
    }
    let dot = i1 < s.len() && s[i1] == '.';
    let i2: usize = if dot {
        digits_skip(s, i1 + 1)
    } else {
        i1
    };
    if dot && i2 == i1 + 1 {
        return None;
    }
    let ex = i2 < s.len() && (s[i2] == 'e' || s[i2] == 'E');
    let mut signed = false;
    let i3: usize = if ex {
        let i2s: usize = if i2 + 1 < s.len() && (s[i2 + 1] == '+' || s[i2 + 1] == '-') {
            signed = true;
            i2 + 2
        } else {
            i2 + 1
        };
        digits_skip(s, i2s)
    } else {
        i2
    };
    if ex && (i3 == i2 + 1 || (signed && i3 == i2 + 2)) {
        return None;
    }
    let lex = copy_range(s, i, i3);
    Some((lex, i3))
}

/// Parse one JSON value starting exactly at `i`.
fn parse_value(s: &Vec<char>, i: usize) -> (r: Option<(Json, usize)>)
    requires
        i <= s@.len(),
    ensures
        match r {
            Some((j, n)) => {
                &&& i < n <= s@.len()
                &&& sp_value(s@, i as int) == Some((j@, n as int))
            },
            None => sp_value(s@, i as int) is None,
        },
    decreases s@.len() - i, 2int,
{
    if i >= s.len() {
        return None;
    }
    let c = s[i];
    if c == 'n' {
        if s.len() - i >= 4 && s[i + 1] == 'u' && s[i + 2] == 'l' && s[i + 3] == 'l' {
            Some((Json::Null, i + 4))
        } else {
            None
        }
    } else if c == 't' {
        if s.len() - i >= 4 && s[i + 1] == 'r' && s[i + 2] == 'u' && s[i + 3] == 'e' {
            Some((Json::Bool(true), i + 4))
        } else {
            None
        }
    } else if c == 'f' {
        if s.len() - i >= 5 && s[i + 1] == 'a' && s[i + 2] == 'l' && s[i + 3] == 's' && s[i + 4]
            == 'e' {
            Some((Json::Bool(false), i + 5))
        } else {
            None
        }
    } else if c == '"' {
        let mut buf: Vec<char> = Vec::new();
        match parse_string_body(s, i + 1, &mut buf) {
            Some(j) => {
                let st = crate::json::chars_to_string(&buf);
                Some((Json::Str(st), j))
            },
            None => None,
        }
    } else if c == '[' {
        let k = ws_skip(s, i + 1);
        if k < s.len() && s[k] == ']' {
            Some((Json::Arr(Vec::new()), k + 1))
        } else {
            match parse_elems(s, k) {
                Some((items, j)) => Some((Json::Arr(items), j)),
                None => None,
            }
        }
    } else if c == '{' {
        let k = ws_skip(s, i + 1);
        if k < s.len() && s[k] == '}' {
            Some((Json::Obj(Vec::new()), k + 1))
        } else {
            match parse_members(s, k) {
                Some((members, j)) => Some((Json::Obj(members), j)),
                None => None,
            }
        }
    } else {
        let cu = c as u32;
        if c == '-' || (48 <= cu && cu <= 57) {
            match parse_number(s, i) {
                Some((lex, j)) => {
                    let st = crate::json::chars_to_string(&lex);
                    Some((Json::Num(st), j))
                },
                None => None,
            }
        } else {
            None
        }
    }
}

/// Parse a non-empty element list and its closing `]`.
fn parse_elems(s: &Vec<char>, i: usize) -> (r: Option<(Vec<Json>, usize)>)
    requires
        i <= s@.len(),
    ensures
        match r {
            Some((items, n)) => {
                &&& i < n <= s@.len()
                &&& sp_elems(s@, i as int) == Some((crate::json::arr_view(items@), n as int))
            },
            None => sp_elems(s@, i as int) is None,
        },
    decreases s@.len() - i, 3int,
{
    match parse_value(s, i) {
        None => None,
        Some((v0, j)) => {
            let k = ws_skip(s, j);
            if k < s.len() && s[k] == ',' {
                let k2 = ws_skip(s, k + 1);
                match parse_elems(s, k2) {
                    None => None,
                    Some((mut rest, j2)) => {
                        let ghost rest0 = rest@;
                        rest.insert(0, v0);
                        proof {
                            crate::json::lemma_arr_view(rest@);
                            crate::json::lemma_arr_view(rest0);
                            assert(rest@ =~= seq![v0].add(rest0));
                            assert(crate::json::arr_view(rest@) =~= seq![v0@] + crate::json::arr_view(
                                rest0,
                            ));
                        }
                        Some((rest, j2))
                    },
                }
            } else if k < s.len() && s[k] == ']' {
                let mut items: Vec<Json> = Vec::new();
                items.push(v0);
                proof {
                    crate::json::lemma_arr_view(items@);
                    assert(crate::json::arr_view(items@) =~= seq![v0@]);
                }
                Some((items, k + 1))
            } else {
                None
            }
        },
    }
}

/// Parse a non-empty member list and its closing `}`.
fn parse_members(s: &Vec<char>, i: usize) -> (r: Option<(Vec<(String, Json)>, usize)>)
    requires
        i <= s@.len(),
    ensures
        match r {
            Some((members, n)) => {
                &&& i < n <= s@.len()
                &&& sp_members(s@, i as int) == Some((crate::json::obj_view(members@), n as int))
            },
            None => sp_members(s@, i as int) is None,
        },
    decreases s@.len() - i, 3int,
{
    if i >= s.len() || s[i] != '"' {
        return None;
    }
    let mut buf: Vec<char> = Vec::new();
    match parse_string_body(s, i + 1, &mut buf) {
        None => None,
        Some(j) => {
            let key = crate::json::chars_to_string(&buf);
            let k = ws_skip(s, j);
            if k < s.len() && s[k] == ':' {
                let k2 = ws_skip(s, k + 1);
                match parse_value(s, k2) {
                    None => None,
                    Some((v0, j2)) => {
                        let k3 = ws_skip(s, j2);
                        if k3 < s.len() && s[k3] == ',' {
                            let k4 = ws_skip(s, k3 + 1);
                            match parse_members(s, k4) {
                                None => None,
                                Some((mut rest, j3)) => {
                                    let ghost rest0 = rest@;
                                    let ghost kv = (key@, v0@);
                                    rest.insert(0, (key, v0));
                                    proof {
                                        crate::json::lemma_obj_view(rest@);
                                        crate::json::lemma_obj_view(rest0);
                                        assert(crate::json::obj_view(rest@) =~= seq![kv]
                                            + crate::json::obj_view(rest0));
                                    }
                                    Some((rest, j3))
                                },
                            }
                        } else if k3 < s.len() && s[k3] == '}' {
                            let ghost kv = (key@, v0@);
                            let mut members: Vec<(String, Json)> = Vec::new();
                            members.push((key, v0));
                            proof {
                                crate::json::lemma_obj_view(members@);
                                assert(crate::json::obj_view(members@) =~= seq![kv]);
                            }
                            Some((members, k3 + 1))
                        } else {
                            None
                        }
                    },
                }
            } else {
                None
            }
        },
    }
}

/// Parse a whole text as one JSON value.
///
/// Succeeds exactly when the text is one well-formed JSON value surrounded
/// by nothing but whitespace, and then returns that value's tree.
pub fn parse_json(text: &str) -> (r: Result<Json, crate::ParseError>)
    ensures
        match r {
            Ok(j) => sp_json(text@) == Some(j@),
            Err(e) => sp_json(text@) is None && e == crate::ParseError::Syntax,
        },
{
    let s = crate::json::string_to_chars(text);
    let i = ws_skip(&s, 0);
    match parse_value(&s, i) {
        Some((j, e)) => {
            let k = ws_skip(&s, e);
            if k == s.len() {
                Ok(j)
            } else {
                Err(crate::ParseError::Syntax)
            }
        },
        None => Err(crate::ParseError::Syntax),
    }
}

} // verus!
