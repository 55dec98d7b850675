//! The codec round trip: parsing the compact rendering of a well-formed
//! JSON tree yields that tree back, exactly.
use vstd::prelude::*;
use crate::json::{JsonV, is_digit, canonical_num, wf_json};
use crate::render::{esc, esc_char, hex_char, jr, jr_elems, jr_members, jr_member};
use crate::parse::{
    sp_ws, sp_digits, sp_string_body, sp_number, sp_value, sp_elems, sp_members, sp_json,
    is_ws, hex_val, esc_code, sp_hex4,
};

verus! {

broadcast use vstd::seq::group_seq_axioms, vstd::std_specs::vec::group_vec_axioms;

/// A character that could extend a preceding number lexeme.
pub open spec fn is_num_cont(c: char) -> bool {
    is_digit(c) || c == '.' || c == 'e' || c == 'E'
}

/// Whitespace skipping stops immediately on a non-whitespace character.
proof fn lemma_sp_ws_stop(s: Seq<char>, i: int)
    requires
        0 <= i <= s.len(),
        i == s.len() || !is_ws(s[i]),
    ensures
        sp_ws(s, i) == i,
{
}

/// Digit skipping over a run of digits stops exactly at its end.
proof fn lemma_sp_digits_run(s: Seq<char>, i: int, j: int)
    requires
        0 <= i <= j <= s.len(),
        forall|k: int| i <= k < j ==> is_digit(#[trigger] s[k]),
        j == s.len() || !is_digit(s[j]),
    ensures
        sp_digits(s, i) == j,
    decreases j - i,
{
    if i < j {
        lemma_sp_digits_run(s, i + 1, j);
    }
}

/// The first character of a rendering: never whitespace, never a closer.
proof fn lemma_jr_first(j: JsonV)
    requires
        wf_json(j),
    ensures
        jr(j).len() >= 1,
        !is_ws(jr(j)[0]),
        jr(j)[0] != ']',
        jr(j)[0] != '}',
        jr(j)[0] != ',',
{
    match j {
        JsonV::Num(s) => {
            assert(is_digit(s[0]));
        },
        _ => {},
    }
}

/// A hex digit character reads back as its value.
proof fn lemma_hex_char_val(d: int)
    requires
        0 <= d < 16,
    ensures
        hex_val(hex_char(d)) == Some(d as u32),
{
    let c = hex_char(d);
    if d < 10 {
        assert(c as u32 == d + 48);
    } else {
        assert(c as u32 == d + 87);
    }
}

/// Parsing a string-literal body over the escaped rendering of `t`,
/// followed by the closing quote, decodes `t` exactly.
proof fn lemma_string_rt(t: Seq<char>, s: Seq<char>, i: int)
    requires
        0 <= i,
        i + esc(t).len() + 1 <= s.len(),
        s.subrange(i, i + esc(t).len() as int) == esc(t),
        s[i + esc(t).len()] == '"',
    ensures
        sp_string_body(s, i) == Some((t, i + esc(t).len() + 1)),
    decreases t.len(),
{
    let et = esc(t);
    assert forall|q: int| 0 <= q < et.len() implies s[i + q] == et[q] by {
        assert(s.subrange(i, i + et.len() as int)[q] == s[i + q]);
    }
    if t.len() == 0 {
        assert(et.len() == 0);
        assert(s[i] == '"');
    } else {
        let c = t[0];
        let t2 = t.subrange(1, t.len() as int);
        let ec = esc_char(c);
        assert(et == ec + esc(t2));
        let i2 = i + ec.len();
        assert(s.subrange(i2, i2 + esc(t2).len() as int) =~= esc(t2)) by {
            assert forall|q: int| 0 <= q < esc(t2).len() implies s.subrange(
                i2,
                i2 + esc(t2).len() as int,
            )[q] == esc(t2)[q] by {
                assert(s[i2 + q] == et[ec.len() + q]);
                assert(et[ec.len() + q] == esc(t2)[q]);
            }
        }
        assert(s[i2 + esc(t2).len()] == '"');
        lemma_string_rt(t2, s, i2);
        if c == '"' {
            assert(ec =~= seq!['\\', '"']);
            assert(s[i + 0] == et[0] && s[i + 1] == et[1]);
            assert(et[0] == ec[0] && et[1] == ec[1]);
            assert(s[i] == '\\' && s[i + 1] == '"');
            assert(seq!['"'] + t2 =~= t);
        } else if c == '\\' {
            assert(ec =~= seq!['\\', '\\']);
            assert(s[i + 0] == et[0] && s[i + 1] == et[1]);
            assert(et[0] == ec[0] && et[1] == ec[1]);
            assert(s[i] == '\\' && s[i + 1] == '\\');
            assert(seq!['\\'] + t2 =~= t);
        } else if (c as u32) < 32 {
            let cu = c as u32;
            assert(ec =~= seq!['\\', 'u', '0', '0', hex_char(cu as int / 16), hex_char(
                cu as int % 16,
            )]);
            assert(s[i + 0] == et[0] && s[i + 1] == et[1] && s[i + 2] == et[2] && s[i + 3] == et[3]
                && s[i + 4] == et[4] && s[i + 5] == et[5]);
            assert(et[0] == ec[0] && et[1] == ec[1] && et[2] == ec[2] && et[3] == ec[3] && et[4]
                == ec[4] && et[5] == ec[5]);
            assert(s[i] == '\\' && s[i + 1] == 'u' && s[i + 2] == '0' && s[i + 3] == '0');
            assert(s[i + 4] == hex_char(cu as int / 16) && s[i + 5] == hex_char(cu as int % 16));
            lemma_hex_char_val(cu as int / 16);
            lemma_hex_char_val(cu as int % 16);
            assert(hex_val('0') == Some(0u32)) by {
                assert('0' as u32 == 48);
            }
            let v = ((cu as int / 16) * 16 + (cu as int % 16)) as u32;
            assert(sp_hex4(s, i + 2) == Some(v));
            assert(v == cu);
            vstd::utf8::char_u32_cast(c, v);
            assert(seq![v as char] + t2 =~= t);
        } else {
            assert(ec =~= seq![c]);
            assert(s[i + 0] == et[0]);
            assert(et[0] == ec[0]);
            assert(s[i] == c);
            assert(seq![c] + t2 =~= t);
        }
    }
}

/// Parsing a number at the canonical digit lexeme of an unsigned integer,
/// not followed by anything that could extend it, reads back that lexeme.
proof fn lemma_num_rt(lex: Seq<char>, s: Seq<char>, i: int)
    requires
        canonical_num(lex),
        0 <= i,
        i + lex.len() <= s.len(),
        s.subrange(i, i + lex.len() as int) == lex,
        i + lex.len() == s.len() || !is_num_cont(s[i + lex.len()]),
    ensures
        sp_number(s, i) == Some((lex, i + lex.len())),
{
    let l = lex.len() as int;
    assert forall|q: int| 0 <= q < l implies s[i + q] == lex[q] by {
        assert(s.subrange(i, i + l)[q] == s[i + q]);
    }
    assert(is_digit(s[i]));
    assert(s[i] != '-') by {
        assert('-' as u32 == 45);
    }
    if lex[0] == '0' {
        assert(l == 1);
        assert(s[i] == '0');
    } else {
        assert(s[i] != '0');
        assert forall|k: int| i <= k < i + l implies is_digit(#[trigger] s[k]) by {
            assert(s[i + (k - i)] == lex[k - i]);
        }
        lemma_sp_digits_run(s, i, i + l);
    }
    assert(s.subrange(i, i + l) == lex);
    if i + l < s.len() {
        assert(!is_digit(s[i + l]) && s[i + l] != '.' && s[i + l] != 'e' && s[i + l] != 'E');
    }
}

/// Parsing at the rendering of a well-formed value, with no extending
/// character after it, yields that value.
proof fn lemma_value_rt(j: JsonV, s: Seq<char>, i: int)
    requires
        wf_json(j),
        0 <= i,
        i + jr(j).len() <= s.len(),
        s.subrange(i, i + jr(j).len() as int) == jr(j),
        i + jr(j).len() == s.len() || !is_num_cont(s[i + jr(j).len()]),
    ensures
        sp_value(s, i) == Some((j, i + jr(j).len())),
    decreases j,
{
    let r = jr(j);
    let l = r.len() as int;
    assert forall|q: int| 0 <= q < l implies s[i + q] == r[q] by {
        assert(s.subrange(i, i + l)[q] == s[i + q]);
    }
    lemma_jr_first(j);
    match j {
        JsonV::Null => {
            assert(s[i] == 'n' && s[i + 1] == 'u' && s[i + 2] == 'l' && s[i + 3] == 'l');
        },
        JsonV::Bool(b) => {
            if b {
                assert(s[i] == 't' && s[i + 1] == 'r' && s[i + 2] == 'u' && s[i + 3] == 'e');
            } else {
                assert(s[i] == 'f' && s[i + 1] == 'a' && s[i + 2] == 'l' && s[i + 3] == 's' && s[i
                    + 4] == 'e');
            }
        },
        JsonV::Num(lex) => {
            assert(s.subrange(i, i + l) =~= lex);
            lemma_num_rt(lex, s, i);
            assert(is_digit(s[i]));
            assert(s[i] != 'n' && s[i] != 't' && s[i] != 'f' && s[i] != '"' && s[i] != '['
                && s[i] != '{') by {
                assert('n' as u32 == 110 && 't' as u32 == 116 && 'f' as u32 == 102);
                assert('"' as u32 == 34 && '[' as u32 == 91 && '{' as u32 == 123);
            }
        },
        JsonV::Str(t) => {
            assert(s[i] == '"');
            assert(r == seq!['"'] + esc(t) + seq!['"']);
            assert(s.subrange(i + 1, i + 1 + esc(t).len() as int) =~= esc(t)) by {
                assert forall|q: int| 0 <= q < esc(t).len() implies s.subrange(
                    i + 1,
                    i + 1 + esc(t).len() as int,
                )[q] == esc(t)[q] by {
                    assert(s[i + 1 + q] == r[1 + q]);
                    assert(r[1 + q] == esc(t)[q]);
                }
            }
            assert(s[i + 1 + esc(t).len()] == r[l - 1]);
            assert(r[l - 1] == '"');
            lemma_string_rt(t, s, i + 1);
        },
        JsonV::Arr(a) => {
            assert(s[i] == '[');
            if a.len() == 0 {
                assert(jr_elems(Seq::<JsonV>::empty()) =~= Seq::<char>::empty());
                assert(r =~= seq!['[', ']']);
                assert(s[i + 1] == r[1]);
                assert(s[i + 1] == ']');
                lemma_sp_ws_stop(s, i + 1);
                assert(sp_value(s, i) == Some((JsonV::Arr(Seq::<JsonV>::empty()), i + 2)));
                assert(a =~= Seq::<JsonV>::empty());
            } else {
                let body = jr_elems(a);
                assert(r == seq!['['] + body + seq![']']);
                assert(s.subrange(i + 1, i + 1 + body.len() as int) =~= body) by {
                    assert forall|q: int| 0 <= q < body.len() implies s.subrange(
                        i + 1,
                        i + 1 + body.len() as int,
                    )[q] == body[q] by {
                        assert(s[i + 1 + q] == r[1 + q]);
                        assert(r[1 + q] == body[q]);
                    }
                }
                assert(s[i + 1 + body.len()] == r[l - 1]);
                assert(r[l - 1] == ']');
                lemma_jr_first(a[0]);
                assert(body[0] == jr(a[0])[0]);
                assert(s[i + 1] == body[0]);
                lemma_sp_ws_stop(s, i + 1);
                lemma_elems_rt(a, s, i + 1);
            }
        },
        JsonV::Obj(m) => {
            assert(s[i] == '{');
            if m.len() == 0 {
                assert(jr_members(Seq::<(Seq<char>, JsonV)>::empty()) =~= Seq::<char>::empty());
                assert(r =~= seq!['{', '}']);
                assert(s[i + 1] == r[1]);
                assert(s[i + 1] == '}');
                lemma_sp_ws_stop(s, i + 1);
                assert(m =~= Seq::<(Seq<char>, JsonV)>::empty());
            } else {
                let body = jr_members(m);
                assert(r == seq!['{'] + body + seq!['}']);
                assert(s.subrange(i + 1, i + 1 + body.len() as int) =~= body) by {
                    assert forall|q: int| 0 <= q < body.len() implies s.subrange(
                        i + 1,
                        i + 1 + body.len() as int,
                    )[q] == body[q] by {
                        assert(s[i + 1 + q] == r[1 + q]);
                        assert(r[1 + q] == body[q]);
                    }
                }
                assert(s[i + 1 + body.len()] == r[l - 1]);
                assert(r[l - 1] == '}');
                assert(body[0] == jr_member(m[0])[0]);
                assert(jr_member(m[0])[0] == '"');
                assert(s[i + 1] == '"');
                lemma_sp_ws_stop(s, i + 1);
                lemma_members_rt(m, s, i + 1);
            }
        },
    }
}

/// Parsing an element list at the rendering of a non-empty sequence of
/// well-formed values, closed by `]`, yields that sequence.
proof fn lemma_elems_rt(a: Seq<JsonV>, s: Seq<char>, i: int)
    requires
        a.len() >= 1,
        forall|q: int| 0 <= q < a.len() ==> wf_json(#[trigger] a[q]),
        0 <= i,
        i + jr_elems(a).len() < s.len(),
        s.subrange(i, i + jr_elems(a).len() as int) == jr_elems(a),
        s[i + jr_elems(a).len()] == ']',
    ensures
        sp_elems(s, i) == Some((a, i + jr_elems(a).len() + 1)),
    decreases a,
{
    let body = jr_elems(a);
    let l = body.len() as int;
    assert forall|q: int| 0 <= q < l implies s[i + q] == body[q] by {
        assert(s.subrange(i, i + l)[q] == s[i + q]);
    }
    let r0 = jr(a[0]);
    lemma_jr_first(a[0]);
    if a.len() == 1 {
        assert(body == r0);
        assert(s.subrange(i, i + r0.len() as int) =~= r0);
        assert(s[i + r0.len()] == ']');
        assert(!is_num_cont(']')) by {
            assert(']' as u32 == 93);
        }
        lemma_value_rt(a[0], s, i);
        let j = i + r0.len();
        lemma_sp_ws_stop(s, j);
        assert(sp_elems(s, i) == Some((seq![a[0]], j + 1)));
        assert(seq![a[0]] =~= a);
    } else {
        let rest = a.subrange(1, a.len() as int);
        let bodyr = jr_elems(rest);
        assert(body == r0 + seq![','] + bodyr);
        assert(s.subrange(i, i + r0.len() as int) =~= r0) by {
            assert forall|q: int| 0 <= q < r0.len() implies s.subrange(i, i + r0.len() as int)[q]
                == r0[q] by {
                assert(s[i + q] == body[q]);
                assert(body[q] == r0[q]);
            }
        }
        let j = i + r0.len();
        assert(s[j] == body[r0.len() as int]);
        assert(body[r0.len() as int] == ',');
        assert(!is_num_cont(',')) by {
            assert(',' as u32 == 44);
        }
        lemma_value_rt(a[0], s, i);
        lemma_sp_ws_stop(s, j);
        let k2 = j + 1;
        assert(s.subrange(k2, k2 + bodyr.len() as int) =~= bodyr) by {
            assert forall|q: int| 0 <= q < bodyr.len() implies s.subrange(
                k2,
                k2 + bodyr.len() as int,
            )[q] == bodyr[q] by {
                assert(s[k2 + q] == body[r0.len() + 1 + q]);
                assert(body[r0.len() + 1 + q] == bodyr[q]);
            }
        }
        assert(s[k2 + bodyr.len()] == s[i + l]);
        lemma_jr_first(rest[0]);
        assert(bodyr[0] == jr(rest[0])[0]);
        assert(s[k2] == bodyr[0]);
        lemma_sp_ws_stop(s, k2);
        lemma_elems_rt(rest, s, k2);
        assert(seq![a[0]] + rest =~= a);
    }
}

/// Parsing one member at its rendering decodes its key and value.
proof fn lemma_member_rt(p: (Seq<char>, JsonV), s: Seq<char>, i: int, stop: char)
    requires
        wf_json(p.1),
        0 <= i,
        i + jr_member(p).len() < s.len(),
        s.subrange(i, i + jr_member(p).len() as int) == jr_member(p),
        s[i + jr_member(p).len()] == stop,
        stop == ',' || stop == '}',
    ensures
        ({
            let key_end = i + 1 + esc(p.0).len() + 1;
            &&& sp_string_body(s, i + 1) == Some((p.0, key_end))
            &&& s[key_end] == ':'
            &&& sp_value(s, key_end + 1) == Some((p.1, i + jr_member(p).len()))
        }),
    decreases p,
{
    let body = jr_member(p);
    let l = body.len() as int;
    assert forall|q: int| 0 <= q < l implies s[i + q] == body[q] by {
        assert(s.subrange(i, i + l)[q] == s[i + q]);
    }
    let ek = esc(p.0);
    let rv = jr(p.1);
    assert(body == seq!['"'] + ek + seq!['"', ':'] + rv);
    assert(s.subrange(i + 1, i + 1 + ek.len() as int) =~= ek) by {
        assert forall|q: int| 0 <= q < ek.len() implies s.subrange(i + 1, i + 1 + ek.len() as int)[q]
            == ek[q] by {
            assert(s[i + 1 + q] == body[1 + q]);
            assert(body[1 + q] == ek[q]);
        }
    }
    assert(s[i + 1 + ek.len()] == body[1 + ek.len() as int]);
    assert(body[1 + ek.len() as int] == '"');
    lemma_string_rt(p.0, s, i + 1);
    let key_end = i + 1 + ek.len() + 1;
    assert(s[key_end] == body[key_end - i]);
    assert(body[key_end - i] == ':');
    let vs = key_end + 1;
    assert(s.subrange(vs, vs + rv.len() as int) =~= rv) by {
        assert forall|q: int| 0 <= q < rv.len() implies s.subrange(vs, vs + rv.len() as int)[q]
            == rv[q] by {
            assert(s[vs + q] == body[(vs - i) + q]);
            assert(body[(vs - i) + q] == rv[q]);
        }
    }
    assert(vs + rv.len() == i + l);
    assert(!is_num_cont(stop)) by {
        assert(',' as u32 == 44 && '}' as u32 == 125);
    }
    lemma_value_rt(p.1, s, vs);
}

/// Parsing a member list at the rendering of a non-empty sequence of
/// members with well-formed values, closed by `}`, yields that sequence.
proof fn lemma_members_rt(m: Seq<(Seq<char>, JsonV)>, s: Seq<char>, i: int)
    requires
        m.len() >= 1,
        forall|q: int| 0 <= q < m.len() ==> wf_json(#[trigger] m[q].1),
        0 <= i,
        i + jr_members(m).len() < s.len(),
        s.subrange(i, i + jr_members(m).len() as int) == jr_members(m),
        s[i + jr_members(m).len()] == '}',
    ensures
        sp_members(s, i) == Some((m, i + jr_members(m).len() + 1)),
    decreases m,
{
    let body = jr_members(m);
    let l = body.len() as int;
    assert forall|q: int| 0 <= q < l implies s[i + q] == body[q] by {
        assert(s.subrange(i, i + l)[q] == s[i + q]);
    }
    let m0 = m[0];
    let b0 = jr_member(m0);
    assert(wf_json(m0.1));
    assert(s[i] == body[0]);
    assert(body[0] == '"');
    if m.len() == 1 {
        assert(body == b0);
        assert(s.subrange(i, i + b0.len() as int) =~= b0);
        assert(s[i + b0.len()] == '}');
        lemma_member_rt(m0, s, i, '}');
        let key_end = i + 1 + esc(m0.0).len() + 1;
        lemma_sp_ws_stop(s, key_end);
        let vs = key_end + 1;
        lemma_jr_first(m0.1);
        assert(s[vs] == body[vs - i]);
        assert(body[vs - i] == jr(m0.1)[0]);
        lemma_sp_ws_stop(s, vs);
        let j2 = i + b0.len();
        lemma_sp_ws_stop(s, j2);
        assert(m0 == (m0.0, m0.1));
        assert(seq![m0] =~= m);
    } else {
        let rest = m.subrange(1, m.len() as int);
        let bodyr = jr_members(rest);
        assert(body == b0 + seq![','] + bodyr);
        assert(s.subrange(i, i + b0.len() as int) =~= b0) by {
            assert forall|q: int| 0 <= q < b0.len() implies s.subrange(i, i + b0.len() as int)[q]
                == b0[q] by {
                assert(s[i + q] == body[q]);
                assert(body[q] == b0[q]);
            }
        }
        let j = i + b0.len();
        assert(s[j] == body[b0.len() as int]);
        assert(body[b0.len() as int] == ',');
        lemma_member_rt(m0, s, i, ',');
        let key_end = i + 1 + esc(m0.0).len() + 1;
        lemma_sp_ws_stop(s, key_end);
        let vs = key_end + 1;
        lemma_jr_first(m0.1);
        assert(s[vs] == body[vs - i]);
        assert(body[vs - i] == jr(m0.1)[0]);
        lemma_sp_ws_stop(s, vs);
        lemma_sp_ws_stop(s, j);
        let k4 = j + 1;
        assert(s.subrange(k4, k4 + bodyr.len() as int) =~= bodyr) by {
            assert forall|q: int| 0 <= q < bodyr.len() implies s.subrange(
                k4,
                k4 + bodyr.len() as int,
            )[q] == bodyr[q] by {
                assert(s[k4 + q] == body[b0.len() + 1 + q]);
                assert(body[b0.len() + 1 + q] == bodyr[q]);
            }
        }
        assert(s[k4 + bodyr.len()] == s[i + l]);
        assert(bodyr[0] == jr_member(rest[0])[0]);
        assert(jr_member(rest[0])[0] == '"');
        assert(s[k4] == bodyr[0]);
        lemma_sp_ws_stop(s, k4);
        lemma_members_rt(rest, s, k4);
        assert(m0 == (m0.0, m0.1));
        assert(seq![m0] + rest =~= m);
    }
}

/// Parsing the compact rendering of a well-formed JSON tree yields that
/// tree back: the codec round trip at the level of JSON text.
pub proof fn lemma_parse_render(j: JsonV)
    requires
        wf_json(j),
    ensures
        sp_json(jr(j)) == Some(j),
{
    let s = jr(j);
    lemma_jr_first(j);
    lemma_sp_ws_stop(s, 0);
    assert(s.subrange(0, s.len() as int) =~= s);
    lemma_value_rt(j, s, 0);
    lemma_sp_ws_stop(s, s.len() as int);
}

} // verus!
