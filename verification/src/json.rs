//! JSON value trees: the exec representation, its mathematical view, and the
//! well-formedness predicate that the codec proofs rely on.
//!
//! Numbers are carried as their decimal lexeme so that a tree round-trips
//! through text without loss; this library only ever emits the canonical
//! digit strings of unsigned integers.
use vstd::prelude::*;

verus! {

broadcast use vstd::seq::group_seq_axioms, vstd::std_specs::vec::group_vec_axioms;

/// A JSON value as held by executable code.
#[derive(Debug)]
pub enum Json {
    Null,
    Bool(bool),
    /// A number, kept as its decimal lexeme.
    Num(String),
    Str(String),
    Arr(Vec<Json>),
    /// An object as an ordered list of key/value members.
    Obj(Vec<(String, Json)>),
}

/// The mathematical mirror of [`Json`].
pub ghost enum JsonV {
    Null,
    Bool(bool),
    Num(Seq<char>),
    Str(Seq<char>),
    Arr(Seq<JsonV>),
    Obj(Seq<(Seq<char>, JsonV)>),
}

impl View for Json {
    type V = JsonV;

    open spec fn view(&self) -> JsonV
        decreases self,
    {
        match self {
            Json::Null => JsonV::Null,
            Json::Bool(b) => JsonV::Bool(*b),
            Json::Num(s) => JsonV::Num(s@),
            Json::Str(s) => JsonV::Str(s@),
            Json::Arr(a) => JsonV::Arr(arr_view_vec(*a)),
            Json::Obj(m) => JsonV::Obj(obj_view_vec(*m)),
        }
    }
}

/// The element-wise view of an array's backing vector.
pub open spec fn arr_view_vec(a: Vec<Json>) -> Seq<JsonV>
    decreases a,
{
    arr_view(a@)
}

/// The element-wise view of a sequence of JSON values.
pub open spec fn arr_view(s: Seq<Json>) -> Seq<JsonV>
    decreases s,
{
    if s.len() == 0 {
        Seq::empty()
    } else {
        seq![s[0]@] + arr_view(s.subrange(1, s.len() as int))
    }
}

/// The member-wise view of an object's backing vector.
pub open spec fn obj_view_vec(m: Vec<(String, Json)>) -> Seq<(Seq<char>, JsonV)>
    decreases m,
{
    obj_view(m@)
}

/// The member-wise view of a sequence of object members.
pub open spec fn obj_view(s: Seq<(String, Json)>) -> Seq<(Seq<char>, JsonV)>
    decreases s,
{
    if s.len() == 0 {
        Seq::empty()
    } else {
        seq![member_view(s[0])] + obj_view(s.subrange(1, s.len() as int))
    }
}

/// The view of one object member.
pub open spec fn member_view(p: (String, Json)) -> (Seq<char>, JsonV)
    decreases p,
{
    (p.0@, p.1@)
}

/// `arr_view` is the element-wise view.
pub proof fn lemma_arr_view(s: Seq<Json>)
    ensures
        arr_view(s).len() == s.len(),
        forall|i: int| 0 <= i < s.len() ==> arr_view(s)[i] == s[i]@,
    decreases s.len(),
{
    if s.len() > 0 {
        let t = s.subrange(1, s.len() as int);
        lemma_arr_view(t);
        assert(arr_view(s) == seq![s[0]@] + arr_view(t));
        assert forall|i: int| 0 <= i < s.len() implies arr_view(s)[i] == s[i]@ by {
            if i > 0 {
                assert(arr_view(s)[i] == arr_view(t)[i - 1]);
                assert(t[i - 1] == s[i]);
            }
        }
    } else {
        assert(arr_view(s).len() == 0);
    }
}

/// `obj_view` is the member-wise view.
pub proof fn lemma_obj_view(s: Seq<(String, Json)>)
    ensures
        obj_view(s).len() == s.len(),
        forall|i: int| 0 <= i < s.len() ==> obj_view(s)[i] == member_view(s[i]),
    decreases s.len(),
{
    if s.len() > 0 {
        let t = s.subrange(1, s.len() as int);
        lemma_obj_view(t);
        assert(obj_view(s) == seq![member_view(s[0])] + obj_view(t));
        assert forall|i: int| 0 <= i < s.len() implies obj_view(s)[i] == member_view(s[i]) by {
            if i > 0 {
                assert(obj_view(s)[i] == obj_view(t)[i - 1]);
                assert(t[i - 1] == s[i]);
            }
        }
    } else {
        assert(obj_view(s).len() == 0);
    }
}

/// Relies on `str::chars`: the iterator yields exactly the string's
/// characters, in order.
#[verifier::external_body]
pub fn string_to_chars(s: &str) -> (v: Vec<char>)
    ensures
        v@ == s@,
{
    s.chars().collect()
}

/// Relies on `String`'s `FromIterator` over `char`s: collecting yields the
/// string holding exactly those characters, in order.
#[verifier::external_body]
pub fn chars_to_string(v: &Vec<char>) -> (s: String)
    ensures
        s@ == v@,
{
    v.iter().collect()
}

/// A digit character.
pub open spec fn is_digit(c: char) -> bool {
    48 <= c as u32 && c as u32 <= 57
}

/// A canonical unsigned decimal lexeme: non-empty digits without a leading
/// zero (except for the single digit `0`).
pub open spec fn canonical_num(s: Seq<char>) -> bool {
    &&& s.len() > 0
    &&& forall|i: int| 0 <= i < s.len() ==> is_digit(#[trigger] s[i])
    &&& (s[0] == '0' ==> s.len() == 1)
}

/// Well-formed trees: every number lexeme is canonical. Only such trees are
/// produced by this library's serializers.
pub open spec fn wf_json(j: JsonV) -> bool
    decreases j,
{
    match j {
        JsonV::Null => true,
        JsonV::Bool(_) => true,
        JsonV::Num(s) => canonical_num(s),
        JsonV::Str(_) => true,
        JsonV::Arr(a) => forall|i: int| 0 <= i < a.len() ==> wf_json(#[trigger] a[i]),
        JsonV::Obj(m) => forall|i: int| 0 <= i < m.len() ==> wf_json(#[trigger] m[i].1),
    }
}

} // verus!
