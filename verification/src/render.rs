//! Rendering JSON trees to text: a compact form and an indented form, each
//! specified exactly by a spec function over the tree's view.
use vstd::prelude::*;
use crate::json::{Json, JsonV, arr_view, obj_view, member_view};

verus! {

broadcast use vstd::seq::group_seq_axioms, vstd::std_specs::vec::group_vec_axioms;

/// The lowercase hexadecimal character of one nibble.
pub open spec fn hex_char(d: int) -> char {
    if d < 10 {
        ((d + 48) as u8) as char
    } else {
        ((d + 87) as u8) as char
    }
}

/// How one character appears inside a JSON string literal: quote and
/// backslash get a backslash escape, control characters a `\u00xy` escape,
/// and every other character stands for itself.
pub open spec fn esc_char(c: char) -> Seq<char> {
    if c == '"' {
        seq!['\\', '"']
    } else if c == '\\' {
        seq!['\\', '\\']
    } else if (c as u32) < 32 {
        seq!['\\', 'u', '0', '0', hex_char(c as u32 as int / 16), hex_char(c as u32 as int % 16)]
    } else {
        seq![c]
    }
}

/// The escaped body of a JSON string literal.
pub open spec fn esc(s: Seq<char>) -> Seq<char>
    decreases s.len(),
{
    if s.len() == 0 {
        Seq::empty()
    } else {
        esc_char(s[0]) + esc(s.subrange(1, s.len() as int))
    }
}

/// The compact rendering of a JSON tree: no whitespace anywhere.
pub open spec fn jr(j: JsonV) -> Seq<char>
    decreases j,
{
    match j {
        JsonV::Null => seq!['n', 'u', 'l', 'l'],
        JsonV::Bool(b) => if b {
            seq!['t', 'r', 'u', 'e']
        } else {
            seq!['f', 'a', 'l', 's', 'e']
        },
        JsonV::Num(s) => s,
        JsonV::Str(s) => seq!['"'] + esc(s) + seq!['"'],
        JsonV::Arr(a) => seq!['['] + jr_elems(a) + seq![']'],
        JsonV::Obj(m) => seq!['{'] + jr_members(m) + seq!['}'],
    }
}

/// Compact rendering of array elements, comma separated.
pub open spec fn jr_elems(a: Seq<JsonV>) -> Seq<char>
    decreases a,
{
    if a.len() == 0 {
        Seq::empty()
    } else if a.len() == 1 {
        jr(a[0])
    } else {
        jr(a[0]) + seq![','] + jr_elems(a.subrange(1, a.len() as int))
    }
}

/// Compact rendering of object members, comma separated.
pub open spec fn jr_members(m: Seq<(Seq<char>, JsonV)>) -> Seq<char>
    decreases m,
{
    if m.len() == 0 {
        Seq::empty()
    } else if m.len() == 1 {
        jr_member(m[0])
    } else {
        jr_member(m[0]) + seq![','] + jr_members(m.subrange(1, m.len() as int))
    }
}

/// Compact rendering of one `"key":value` member.
pub open spec fn jr_member(p: (Seq<char>, JsonV)) -> Seq<char>
    decreases p,
{
    seq!['"'] + esc(p.0) + seq!['"', ':'] + jr(p.1)
}

/// A run of `n` spaces.
pub open spec fn spaces(n: nat) -> Seq<char>
    decreases n,
{
    if n == 0 {
        Seq::empty()
    } else {
        spaces((n - 1) as nat).push(' ')
    }
}

/// The indented rendering of a JSON tree at indent depth `ind`: two-space
/// indentation, one element or member per line, empty composites rendered
/// as `[]` and `{}`.
pub open spec fn jrp(j: JsonV, ind: nat) -> Seq<char>
    decreases j,
{
    match j {
        JsonV::Arr(a) => if a.len() == 0 {
            seq!['[', ']']
        } else {
            seq!['[', '\n'] + jrp_elems(a, ind + 2) + seq!['\n'] + spaces(ind) + seq![']']
        },
        JsonV::Obj(m) => if m.len() == 0 {
            seq!['{', '}']
        } else {
            seq!['{', '\n'] + jrp_members(m, ind + 2) + seq!['\n'] + spaces(ind) + seq!['}']
        },
        _ => jr(j),
    }
}

/// Indented rendering of array elements, one per line.
pub open spec fn jrp_elems(a: Seq<JsonV>, ind: nat) -> Seq<char>
    decreases a,
{
    if a.len() == 0 {
        Seq::empty()
    } else if a.len() == 1 {
        spaces(ind) + jrp(a[0], ind)
    } else {
        spaces(ind) + jrp(a[0], ind) + seq![',', '\n'] + jrp_elems(
            a.subrange(1, a.len() as int),
            ind,
        )
    }
}

/// Indented rendering of object members, one per line.
pub open spec fn jrp_members(m: Seq<(Seq<char>, JsonV)>, ind: nat) -> Seq<char>
    decreases m,
{
    if m.len() == 0 {
        Seq::empty()
    } else if m.len() == 1 {
        jrp_member(m[0], ind)
    } else {
        jrp_member(m[0], ind) + seq![',', '\n'] + jrp_members(m.subrange(1, m.len() as int), ind)
    }
}

/// Indented rendering of one `"key": value` member.
pub open spec fn jrp_member(p: (Seq<char>, JsonV), ind: nat) -> Seq<char>
    decreases p,
{
    spaces(ind) + seq!['"'] + esc(p.0) + seq!['"', ':', ' '] + jrp(p.1, ind)
}

/// Append the escape of one character.
fn push_esc_char(c: char, v: &mut Vec<char>)
    ensures
        final(v)@ == old(v)@ + esc_char(c),
{
    if c == '"' {
        v.push('\\');
        v.push('"');
        assert(v@ =~= old(v)@ + esc_char(c));
    } else if c == '\\' {
        v.push('\\');
        v.push('\\');
        assert(v@ =~= old(v)@ + esc_char(c));
    } else {
        let cu = c as u32;
        if cu < 32 {
            v.push('\\');
            v.push('u');
            v.push('0');
            v.push('0');
            let d: u32 = cu / 16;
            let r: u32 = cu % 16;
            v.push(if d < 10 {
                ((d as u8) + 48) as char
            } else {
                ((d as u8) + 87) as char
            });
            v.push(if r < 10 {
                ((r as u8) + 48) as char
            } else {
                ((r as u8) + 87) as char
            });
            assert(v@ =~= old(v)@ + esc_char(c));
        } else {
            v.push(c);
            assert(v@ =~= old(v)@ + esc_char(c));
        }
    }
}

/// Append the escaped form of the characters `s[i..]`.
fn push_esc(s: &Vec<char>, i: usize, v: &mut Vec<char>)
    requires
        i <= s@.len(),
    ensures
        final(v)@ == old(v)@ + esc(s@.subrange(i as int, s@.len() as int)),
    decreases s@.len() - i,
{
    if i < s.len() {
        push_esc_char(s[i], v);
        push_esc(s, i + 1, v);
        proof {
            let t = s@.subrange(i as int, s@.len() as int);
            assert(t[0] == s@[i as int]);
            assert(t.subrange(1, t.len() as int) =~= s@.subrange(i + 1, s@.len() as int));
            assert(v@ =~= old(v)@ + esc(t));
        }
    } else {
        assert(s@.subrange(i as int, s@.len() as int) =~= Seq::<char>::empty());
    }
}

/// Append a quoted, escaped JSON string literal.
fn push_string_lit(s: &String, v: &mut Vec<char>)
    ensures
        final(v)@ == old(v)@ + seq!['"'] + esc(s@) + seq!['"'],
{
    let cs = crate::json::string_to_chars(s.as_str());
    v.push('"');
    push_esc(&cs, 0, v);
    v.push('"');
    proof {
        assert(cs@.subrange(0, cs@.len() as int) =~= s@);
        assert(v@ =~= old(v)@ + seq!['"'] + esc(s@) + seq!['"']);
    }
}

/// Append the compact rendering of a JSON tree.
pub fn render_into(j: &Json, v: &mut Vec<char>)
    ensures
        final(v)@ == old(v)@ + jr(j@),
    decreases j,
{
    match j {
        Json::Null => {
            v.push('n');
            v.push('u');
            v.push('l');
            v.push('l');
            assert(v@ =~= old(v)@ + jr(j@));
        },
        Json::Bool(b) => {
            if *b {
                v.push('t');
                v.push('r');
                v.push('u');
                v.push('e');
            } else {
                v.push('f');
                v.push('a');
                v.push('l');
                v.push('s');
                v.push('e');
            }
            assert(v@ =~= old(v)@ + jr(j@));
        },
        Json::Num(s) => {
            let mut cs = crate::json::string_to_chars(s.as_str());
            v.append(&mut cs);
        },
        Json::Str(s) => {
            push_string_lit(s, v);
            assert(v@ =~= old(v)@ + jr(j@));
        },
        Json::Arr(a) => {
            v.push('[');
            if a.len() > 0 {
                proof {
                    crate::json::lemma_arr_view(a@);
                }
                render_elems_into(a, 0, v);
                proof {
                    assert(arr_view(a@).subrange(0, arr_view(a@).len() as int) =~= arr_view(a@));
                }
            }
            v.push(']');
            proof {
                if a@.len() == 0 {
                    assert(arr_view(a@) =~= Seq::<JsonV>::empty());
                }
                assert(v@ =~= old(v)@ + jr(j@));
            }
        },
        Json::Obj(m) => {
            v.push('{');
            if m.len() > 0 {
                proof {
                    crate::json::lemma_obj_view(m@);
                }
                render_members_into(m, 0, v);
                proof {
                    assert(obj_view(m@).subrange(0, obj_view(m@).len() as int) =~= obj_view(m@));
                }
            }
            v.push('}');
            proof {
                if m@.len() == 0 {
                    assert(obj_view(m@) =~= Seq::<(Seq<char>, JsonV)>::empty());
                }
                assert(v@ =~= old(v)@ + jr(j@));
            }
        },
    }
}

/// Append the compact rendering of the array elements `a[i..]`.
fn render_elems_into(a: &Vec<Json>, i: usize, v: &mut Vec<char>)
    requires
        i < a@.len(),
    ensures
        final(v)@ == old(v)@ + jr_elems(arr_view(a@).subrange(i as int, a@.len() as int)),
    decreases a, a@.len() - i,
{
    proof {
        crate::json::lemma_arr_view(a@);
    }
    let n = a.len();
    render_into(&a[i], v);
    if i + 1 < n {
        v.push(',');
        render_elems_into(a, i + 1, v);
    }
    proof {
        let av = arr_view(a@);
        let t = av.subrange(i as int, av.len() as int);
        assert(t[0] == av[i as int]);
        if i + 1 < a@.len() {
            assert(t.subrange(1, t.len() as int) =~= av.subrange(i + 1, av.len() as int));
            assert(v@ =~= old(v)@ + jr_elems(t));
        } else {
            assert(t.len() == 1);
            assert(v@ =~= old(v)@ + jr_elems(t));
        }
    }
}

/// Append the compact rendering of one object member.
fn render_member_into(p: &(String, Json), v: &mut Vec<char>)
    ensures
        final(v)@ == old(v)@ + jr_member(member_view(*p)),
    decreases p,
{
    push_string_lit(&p.0, v);
    v.push(':');
    render_into(&p.1, v);
    assert(v@ =~= old(v)@ + jr_member(member_view(*p)));
}

/// Append the compact rendering of the object members `m[i..]`.
fn render_members_into(m: &Vec<(String, Json)>, i: usize, v: &mut Vec<char>)
    requires
        i < m@.len(),
    ensures
        final(v)@ == old(v)@ + jr_members(obj_view(m@).subrange(i as int, m@.len() as int)),
    decreases m, m@.len() - i,
{
    proof {
        crate::json::lemma_obj_view(m@);
    }
    let n = m.len();
    render_member_into(&m[i], v);
    if i + 1 < n {
        v.push(',');
        render_members_into(m, i + 1, v);
    }
    proof {
        let mv = obj_view(m@);
        let t = mv.subrange(i as int, mv.len() as int);
        assert(t[0] == mv[i as int]);
        if i + 1 < m@.len() {
            assert(t.subrange(1, t.len() as int) =~= mv.subrange(i + 1, mv.len() as int));
            assert(v@ =~= old(v)@ + jr_members(t));
        } else {
            assert(t.len() == 1);
            assert(v@ =~= old(v)@ + jr_members(t));
        }
    }
}

/// Render a JSON tree compactly, with no whitespace.
pub fn render_json(j: &Json) -> (r: String)
    ensures
        r@ == jr(j@),
{
    let mut v: Vec<char> = Vec::new();
    render_into(j, &mut v);
    crate::json::chars_to_string(&v)
}

/// Append a copy of the indent pad.
fn push_pad(pad: &Vec<char>, v: &mut Vec<char>)
    ensures
        final(v)@ == old(v)@ + pad@,
{
    let mut i: usize = 0;
    while i < pad.len()
        invariant
            0 <= i <= pad@.len(),
            v@ == old(v)@ + pad@.subrange(0, i as int),
        decreases pad@.len() - i,
    {
        v.push(pad[i]);
        proof {
            assert(pad@.subrange(0, i + 1) =~= pad@.subrange(0, i as int).push(pad@[i as int]));
        }
        i = i + 1;
    }
    proof {
        assert(pad@.subrange(0, pad@.len() as int) =~= pad@);
    }
}

/// A pad two spaces wider.
fn widen_pad(pad: &Vec<char>, Ghost(ind): Ghost<nat>) -> (r: Vec<char>)
    requires
        pad@ == spaces(ind),
    ensures
        r@ == spaces(ind + 2),
{
    let mut r: Vec<char> = Vec::new();
    push_pad(pad, &mut r);
    r.push(' ');
    r.push(' ');
    proof {
        assert(spaces(ind + 2) == spaces(ind + 1).push(' '));
        assert(spaces(ind + 1) == spaces(ind).push(' '));
        assert(r@ =~= spaces(ind + 2));
    }
    r
}

/// Append the indented rendering of a JSON tree; `pad` holds the spaces of
/// the current indent depth.
pub fn render_pretty_into(j: &Json, pad: &Vec<char>, Ghost(ind): Ghost<nat>, v: &mut Vec<char>)
    requires
        pad@ == spaces(ind),
    ensures
        final(v)@ == old(v)@ + jrp(j@, ind),
    decreases j,
{
    match j {
        Json::Arr(a) => {
            if a.len() == 0 {
                v.push('[');
                v.push(']');
                proof {
                    assert(arr_view(a@) =~= Seq::<JsonV>::empty());
                    assert(v@ =~= old(v)@ + jrp(j@, ind));
                }
            } else {
                v.push('[');
                v.push('\n');
                let pad2 = widen_pad(pad, Ghost(ind));
                proof {
                    crate::json::lemma_arr_view(a@);
                }
                render_pretty_elems_into(a, 0, &pad2, Ghost(ind + 2), v);
                v.push('\n');
                push_pad(pad, v);
                v.push(']');
                proof {
                    assert(arr_view(a@).subrange(0, arr_view(a@).len() as int) =~= arr_view(a@));
                    assert(v@ =~= old(v)@ + jrp(j@, ind));
                }
            }
        },
        Json::Obj(m) => {
            if m.len() == 0 {
                v.push('{');
                v.push('}');
                proof {
                    assert(obj_view(m@) =~= Seq::<(Seq<char>, JsonV)>::empty());
                    assert(v@ =~= old(v)@ + jrp(j@, ind));
                }
            } else {
                v.push('{');
                v.push('\n');
                let pad2 = widen_pad(pad, Ghost(ind));
                proof {
                    crate::json::lemma_obj_view(m@);
                }
                render_pretty_members_into(m, 0, &pad2, Ghost(ind + 2), v);
                v.push('\n');
                push_pad(pad, v);
                v.push('}');
                proof {
                    assert(obj_view(m@).subrange(0, obj_view(m@).len() as int) =~= obj_view(m@));
                    assert(v@ =~= old(v)@ + jrp(j@, ind));
                }
            }
        },
        _ => {
            render_into(j, v);
            assert(v@ =~= old(v)@ + jrp(j@, ind));
        },
    }
}

/// Append the indented rendering of the array elements `a[i..]`.
fn render_pretty_elems_into(
    a: &Vec<Json>,
    i: usize,
    pad: &Vec<char>,
    Ghost(ind): Ghost<nat>,
    v: &mut Vec<char>,
)
    requires
        i < a@.len(),
        pad@ == spaces(ind),
    ensures
        final(v)@ == old(v)@ + jrp_elems(arr_view(a@).subrange(i as int, a@.len() as int), ind),
    decreases a, a@.len() - i,
{
    proof {
        crate::json::lemma_arr_view(a@);
    }
    let n = a.len();
    push_pad(pad, v);
    render_pretty_into(&a[i], pad, Ghost(ind), v);
    if i + 1 < n {
        v.push(',');
        v.push('\n');
        render_pretty_elems_into(a, i + 1, pad, Ghost(ind), v);
    }
    proof {
        let av = arr_view(a@);
        let t = av.subrange(i as int, av.len() as int);
        assert(t[0] == av[i as int]);
        if i + 1 < a@.len() {
            assert(t.subrange(1, t.len() as int) =~= av.subrange(i + 1, av.len() as int));
            assert(v@ =~= old(v)@ + jrp_elems(t, ind));
        } else {
            assert(t.len() == 1);
            assert(v@ =~= old(v)@ + jrp_elems(t, ind));
        }
    }
}

/// Append the indented rendering of one object member.
fn render_pretty_member_into(
    p: &(String, Json),
    pad: &Vec<char>,
    Ghost(ind): Ghost<nat>,
    v: &mut Vec<char>,
)
    requires
        pad@ == spaces(ind),
    ensures
        final(v)@ == old(v)@ + jrp_member(member_view(*p), ind),
    decreases p,
{
    push_pad(pad, v);
    push_string_lit(&p.0, v);
    v.push(':');
    v.push(' ');
    render_pretty_into(&p.1, pad, Ghost(ind), v);
    assert(v@ =~= old(v)@ + jrp_member(member_view(*p), ind));
}

/// Append the indented rendering of the object members `m[i..]`.
fn render_pretty_members_into(
    m: &Vec<(String, Json)>,
    i: usize,
    pad: &Vec<char>,
    Ghost(ind): Ghost<nat>,
    v: &mut Vec<char>,
)
    requires
        i < m@.len(),
        pad@ == spaces(ind),
    ensures
        final(v)@ == old(v)@ + jrp_members(obj_view(m@).subrange(i as int, m@.len() as int), ind),
    decreases m, m@.len() - i,
{
    proof {
        crate::json::lemma_obj_view(m@);
    }
    let n = m.len();
    render_pretty_member_into(&m[i], pad, Ghost(ind), v);
    if i + 1 < n {
        v.push(',');
        v.push('\n');
        render_pretty_members_into(m, i + 1, pad, Ghost(ind), v);
    }
    proof {
        let mv = obj_view(m@);
        let t = mv.subrange(i as int, mv.len() as int);
        assert(t[0] == mv[i as int]);
        if i + 1 < m@.len() {
            assert(t.subrange(1, t.len() as int) =~= mv.subrange(i + 1, mv.len() as int));
            assert(v@ =~= old(v)@ + jrp_members(t, ind));
        } else {
            assert(t.len() == 1);
            assert(v@ =~= old(v)@ + jrp_members(t, ind));
        }
    }
}

/// Render a JSON tree with two-space indentation.
pub fn render_json_pretty(j: &Json) -> (r: String)
    ensures
        r@ == jrp(j@, 0),
{
    let pad: Vec<char> = Vec::new();
    let mut v: Vec<char> = Vec::new();
    proof {
        assert(pad@ =~= spaces(0));
    }
    render_pretty_into(j, &pad, Ghost(0nat), &mut v);
    crate::json::chars_to_string(&v)
}

} // verus!
