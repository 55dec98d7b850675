//! Shared machinery for the flat-object wire layout: first-match key lookup
//! over an ordered member list, and typed field readers used by every
//! entity's parser. Readers return `Ok(None)` for an absent key, `Ok(Some)`
//! for a present well-typed value, and `Err` for a present ill-typed one.
use vstd::prelude::*;
use crate::ParseError;
use crate::json::{Json, JsonV, obj_view};
use crate::num::num_val_u64;
use crate::timestamp::{Timestamp, ts_parse, ts_from_chars};

verus! {

broadcast use vstd::seq::group_seq_axioms, vstd::std_specs::vec::group_vec_axioms, vstd::string::group_string_axioms;

/// The value under the first member with key `k`, if any.
pub open spec fn lookup(m: Seq<(Seq<char>, JsonV)>, k: Seq<char>) -> Option<JsonV>
    decreases m.len(),
{
    if m.len() == 0 {
        None
    } else if m[0].0 == k {
        Some(m[0].1)
    } else {
        lookup(m.subrange(1, m.len() as int), k)
    }
}

/// A value found by lookup is structurally beneath the member list.
pub proof fn lemma_lookup_dec(m: Seq<(Seq<char>, JsonV)>, k: Seq<char>)
    ensures
        lookup(m, k) matches Some(v) ==> decreases_to!(m => v),
    decreases m.len(),
{
    if m.len() > 0 {
        if m[0].0 == k {
            assert(decreases_to!(m => m[0]));
            assert(decreases_to!(m[0] => m[0].1));
        } else {
            let t = m.subrange(1, m.len() as int);
            lemma_lookup_dec(t, k);
            if lookup(t, k) matches Some(v) {
                assert(decreases_to!(m => t));
            }
        }
    }
}

/// An optional string field.
pub open spec fn f_str(m: Seq<(Seq<char>, JsonV)>, k: Seq<char>) -> Result<
    Option<Seq<char>>,
    ParseError,
> {
    match lookup(m, k) {
        None => Ok(None),
        Some(JsonV::Str(s)) => Ok(Some(s)),
        Some(_) => Err(ParseError::Shape),
    }
}

/// A required string field.
pub open spec fn f_req_str(m: Seq<(Seq<char>, JsonV)>, k: Seq<char>) -> Result<
    Seq<char>,
    ParseError,
> {
    match lookup(m, k) {
        Some(JsonV::Str(s)) => Ok(s),
        _ => Err(ParseError::Shape),
    }
}

/// An optional unsigned field that must fit in `u32`.
pub open spec fn f_u32(m: Seq<(Seq<char>, JsonV)>, k: Seq<char>) -> Result<
    Option<u32>,
    ParseError,
> {
    match lookup(m, k) {
        None => Ok(None),
        Some(JsonV::Num(lex)) => match num_val_u64(lex) {
            Some(n) => if n <= u32::MAX as u64 {
                Ok(Some(n as u32))
            } else {
                Err(ParseError::Shape)
            },
            None => Err(ParseError::Shape),
        },
        Some(_) => Err(ParseError::Shape),
    }
}

/// An optional unsigned field that must fit in `usize`.
pub open spec fn f_usize(m: Seq<(Seq<char>, JsonV)>, k: Seq<char>) -> Result<
    Option<usize>,
    ParseError,
> {
    match lookup(m, k) {
        None => Ok(None),
        Some(JsonV::Num(lex)) => match num_val_u64(lex) {
            Some(n) => if n <= usize::MAX as u64 {
                Ok(Some(n as usize))
            } else {
                Err(ParseError::Shape)
            },
            None => Err(ParseError::Shape),
        },
        Some(_) => Err(ParseError::Shape),
    }
}

/// An optional timestamp field, carried as a string on the wire.
pub open spec fn f_ts(m: Seq<(Seq<char>, JsonV)>, k: Seq<char>) -> Result<
    Option<Timestamp>,
    ParseError,
> {
    match lookup(m, k) {
        None => Ok(None),
        Some(JsonV::Str(s)) => match ts_parse(s) {
            Some(t) => Ok(Some(t)),
            None => Err(ParseError::Shape),
        },
        Some(_) => Err(ParseError::Shape),
    }
}

/// The element-wise decoding of an array of strings.
pub open spec fn strs_from(a: Seq<JsonV>) -> Result<Seq<Seq<char>>, ParseError>
    decreases a.len(),
{
    if a.len() == 0 {
        Ok(Seq::empty())
    } else {
        match a[0] {
            JsonV::Str(s) => match strs_from(a.subrange(1, a.len() as int)) {
                Ok(rest) => Ok(seq![s] + rest),
                Err(e) => Err(e),
            },
            _ => Err(ParseError::Shape),
        }
    }
}

/// An optional field holding an array of strings.
pub open spec fn f_str_arr(m: Seq<(Seq<char>, JsonV)>, k: Seq<char>) -> Result<
    Option<Seq<Seq<char>>>,
    ParseError,
> {
    match lookup(m, k) {
        None => Ok(None),
        Some(JsonV::Arr(a)) => match strs_from(a) {
            Ok(ss) => Ok(Some(ss)),
            Err(e) => Err(e),
        },
        Some(_) => Err(ParseError::Shape),
    }
}

/// The members contributed by an optional string field: one when set,
/// none when absent.
pub open spec fn put_str(k: Seq<char>, o: Option<Seq<char>>) -> Seq<(Seq<char>, JsonV)> {
    match o {
        Some(s) => seq![(k, JsonV::Str(s))],
        None => Seq::empty(),
    }
}

/// The members contributed by an optional timestamp field.
pub open spec fn put_ts(k: Seq<char>, o: Option<Timestamp>) -> Seq<(Seq<char>, JsonV)> {
    match o {
        Some(t) => seq![(k, JsonV::Str(crate::timestamp::ts_render(t)))],
        None => Seq::empty(),
    }
}

/// The members contributed by an optional `u32` field.
pub open spec fn put_u32(k: Seq<char>, o: Option<u32>) -> Seq<(Seq<char>, JsonV)> {
    match o {
        Some(n) => seq![(k, JsonV::Num(crate::num::dec_digits(n as nat)))],
        None => Seq::empty(),
    }
}

/// The members contributed by an optional `usize` field.
pub open spec fn put_usize(k: Seq<char>, o: Option<usize>) -> Seq<(Seq<char>, JsonV)> {
    match o {
        Some(n) => seq![(k, JsonV::Num(crate::num::dec_digits(n as nat)))],
        None => Seq::empty(),
    }
}

/// A sequence of strings as JSON string values.
pub open spec fn strs_json(ss: Seq<Seq<char>>) -> Seq<JsonV>
    decreases ss.len(),
{
    if ss.len() == 0 {
        Seq::empty()
    } else {
        seq![JsonV::Str(ss[0])] + strs_json(ss.subrange(1, ss.len() as int))
    }
}

/// Looking a key up in a concatenation searches left, then right.
pub proof fn lemma_lookup_append(m1: Seq<(Seq<char>, JsonV)>, m2: Seq<(Seq<char>, JsonV)>, k: Seq<
    char,
>)
    ensures
        lookup(m1 + m2, k) == if lookup(m1, k) is Some {
            lookup(m1, k)
        } else {
            lookup(m2, k)
        },
    decreases m1.len(),
{
    if m1.len() == 0 {
        assert(m1 + m2 =~= m2);
    } else {
        let t1 = m1.subrange(1, m1.len() as int);
        lemma_lookup_append(t1, m2, k);
        assert((m1 + m2)[0] == m1[0]);
        assert((m1 + m2).subrange(1, (m1 + m2).len() as int) =~= t1 + m2);
    }
}

/// What lookup finds under an optional string field's key.
pub open spec fn os_val(o: Option<Seq<char>>) -> Option<JsonV> {
    match o {
        Some(s) => Some(JsonV::Str(s)),
        None => None,
    }
}

/// What lookup finds under an optional timestamp field's key.
pub open spec fn ots_val(o: Option<Timestamp>) -> Option<JsonV> {
    match o {
        Some(t) => Some(JsonV::Str(crate::timestamp::ts_render(t))),
        None => None,
    }
}

/// What lookup finds under an optional `u32` field's key.
pub open spec fn ou32_val(o: Option<u32>) -> Option<JsonV> {
    match o {
        Some(n) => Some(JsonV::Num(crate::num::dec_digits(n as nat))),
        None => None,
    }
}

/// What lookup finds under an optional `usize` field's key.
pub open spec fn ousize_val(o: Option<usize>) -> Option<JsonV> {
    match o {
        Some(n) => Some(JsonV::Num(crate::num::dec_digits(n as nat))),
        None => None,
    }
}

/// Lookup in a one-member list.
pub proof fn lemma_lookup_one(k1: Seq<char>, j: JsonV, k: Seq<char>)
    ensures
        lookup(seq![(k1, j)], k) == if k1 == k {
            Some(j)
        } else {
            None::<JsonV>
        },
{
    reveal_with_fuel(lookup, 2);
    let s = seq![(k1, j)];
    assert(s[0] == (k1, j));
    assert(s.subrange(1, 1) =~= Seq::<(Seq<char>, JsonV)>::empty());
}

/// Lookup in the segment of an optional string field.
pub proof fn lemma_lookup_put_str(k1: Seq<char>, o: Option<Seq<char>>, k: Seq<char>)
    ensures
        lookup(put_str(k1, o), k) == if k1 == k {
            os_val(o)
        } else {
            None::<JsonV>
        },
{
    match o {
        Some(s) => lemma_lookup_one(k1, JsonV::Str(s), k),
        None => {},
    }
}

/// Lookup in the segment of an optional timestamp field.
pub proof fn lemma_lookup_put_ts(k1: Seq<char>, o: Option<Timestamp>, k: Seq<char>)
    ensures
        lookup(put_ts(k1, o), k) == if k1 == k {
            ots_val(o)
        } else {
            None::<JsonV>
        },
{
    match o {
        Some(t) => lemma_lookup_one(k1, JsonV::Str(crate::timestamp::ts_render(t)), k),
        None => {},
    }
}

/// Lookup in the segment of an optional `u32` field.
pub proof fn lemma_lookup_put_u32(k1: Seq<char>, o: Option<u32>, k: Seq<char>)
    ensures
        lookup(put_u32(k1, o), k) == if k1 == k {
            ou32_val(o)
        } else {
            None::<JsonV>
        },
{
    match o {
        Some(n) => lemma_lookup_one(k1, JsonV::Num(crate::num::dec_digits(n as nat)), k),
        None => {},
    }
}

/// Lookup in the segment of an optional `usize` field.
pub proof fn lemma_lookup_put_usize(k1: Seq<char>, o: Option<usize>, k: Seq<char>)
    ensures
        lookup(put_usize(k1, o), k) == if k1 == k {
            ousize_val(o)
        } else {
            None::<JsonV>
        },
{
    match o {
        Some(n) => lemma_lookup_one(k1, JsonV::Num(crate::num::dec_digits(n as nat)), k),
        None => {},
    }
}

/// Decoding the JSON form of a string sequence yields it back.
pub proof fn lemma_strs_rt(ss: Seq<Seq<char>>)
    ensures
        strs_from(strs_json(ss)) == Ok::<Seq<Seq<char>>, ParseError>(ss),
    decreases ss.len(),
{
    reveal_with_fuel(strs_from, 2);
    reveal_with_fuel(strs_json, 2);
    if ss.len() == 0 {
        assert(strs_json(ss) =~= Seq::<JsonV>::empty());
        assert(ss =~= Seq::<Seq<char>>::empty());
    } else {
        let t = ss.subrange(1, ss.len() as int);
        lemma_strs_rt(t);
        let w = strs_json(ss);
        assert(w == seq![JsonV::Str(ss[0])] + strs_json(t));
        assert(w[0] == JsonV::Str(ss[0]));
        assert(w.subrange(1, w.len() as int) =~= strs_json(t));
        assert(strs_from(w.subrange(1, w.len() as int)) == Ok::<Seq<Seq<char>>, ParseError>(t));
        assert(strs_from(w) == Ok::<Seq<Seq<char>>, ParseError>(seq![ss[0]] + t));
        assert(seq![ss[0]] + t =~= ss);
    }
}

/// Lengths and leading characters of every wire key, fixing them all
/// pairwise distinct.
pub proof fn lemma_keys()
    ensures
        "type"@.len() == 4,
        "type"@[0] == 't',
        "id"@.len() == 2,
        "id"@[0] == 'i',
        "name"@.len() == 4,
        "name"@[0] == 'n',
        "name"@[1] == 'a',
        "url"@.len() == 3,
        "url"@[0] == 'u',
        "published"@.len() == 9,
        "published"@[0] == 'p',
        "published"@[1] == 'u',
        "published"@[2] == 'b',
        "published"@[3] == 'l',
        "published"@[4] == 'i',
        "published"@[5] == 's',
        "image"@.len() == 5,
        "image"@[0] == 'i',
        "image"@[1] == 'm',
        "attributedTo"@.len() == 12,
        "attributedTo"@[0] == 'a',
        "audience"@.len() == 8,
        "audience"@[0] == 'a',
        "content"@.len() == 7,
        "content"@[0] == 'c',
        "summary"@.len() == 7,
        "summary"@[0] == 's',
        "duration"@.len() == 8,
        "duration"@[0] == 'd',
        "preview"@.len() == 7,
        "preview"@[0] == 'p',
        "href"@.len() == 4,
        "href"@[0] == 'h',
        "rel"@.len() == 3,
        "rel"@[0] == 'r',
        "mediaType"@.len() == 9,
        "mediaType"@[0] == 'm',
        "hreflang"@.len() == 8,
        "hreflang"@[0] == 'h',
        "height"@.len() == 6,
        "height"@[0] == 'h',
        "width"@.len() == 5,
        "width"@[0] == 'w',
        "actor"@.len() == 5,
        "actor"@[0] == 'a',
        "object"@.len() == 6,
        "object"@[0] == 'o',
        "object"@[1] == 'b',
        "target"@.len() == 6,
        "target"@[0] == 't',
        "result"@.len() == 6,
        "result"@[0] == 'r',
        "to"@.len() == 2,
        "to"@[0] == 't',
        "origin"@.len() == 6,
        "origin"@[0] == 'o',
        "origin"@[1] == 'r',
        "instrument"@.len() == 10,
        "instrument"@[0] == 'i',
        "preferredUsername"@.len() == 17,
        "preferredUsername"@[0] == 'p',
        "inbox"@.len() == 5,
        "inbox"@[0] == 'i',
        "inbox"@[1] == 'n',
        "outbox"@.len() == 6,
        "outbox"@[0] == 'o',
        "outbox"@[1] == 'u',
        "followers"@.len() == 9,
        "followers"@[0] == 'f',
        "followers"@[1] == 'o',
        "followers"@[2] == 'l',
        "followers"@[3] == 'l',
        "followers"@[4] == 'o',
        "followers"@[5] == 'w',
        "followers"@[6] == 'e',
        "following"@.len() == 9,
        "following"@[0] == 'f',
        "following"@[1] == 'o',
        "following"@[2] == 'l',
        "following"@[3] == 'l',
        "following"@[4] == 'o',
        "following"@[5] == 'w',
        "following"@[6] == 'i',
        "liked"@.len() == 5,
        "liked"@[0] == 'l',
        "publicKey"@.len() == 9,
        "publicKey"@[0] == 'p',
        "publicKey"@[1] == 'u',
        "publicKey"@[2] == 'b',
        "publicKey"@[3] == 'l',
        "publicKey"@[4] == 'i',
        "publicKey"@[5] == 'c',
        "owner"@.len() == 5,
        "owner"@[0] == 'o',
        "publicKeyPem"@.len() == 12,
        "publicKeyPem"@[0] == 'p',
        "totalItems"@.len() == 10,
        "totalItems"@[0] == 't',
        "items"@.len() == 5,
        "items"@[0] == 'i',
        "items"@[1] == 't',
        "orderedItems"@.len() == 12,
        "orderedItems"@[0] == 'o',
        "partOf"@.len() == 6,
        "partOf"@[0] == 'p',
        "next"@.len() == 4,
        "next"@[0] == 'n',
        "next"@[1] == 'e',
        "prev"@.len() == 4,
        "prev"@[0] == 'p',
        "@context"@.len() == 8,
        "@context"@[0] == '@',
        "@vocab"@.len() == 6,
        "@vocab"@[0] == '@',
        "@language"@.len() == 9,
        "@language"@[0] == '@',
{
    reveal_strlit("type");
    reveal_strlit("id");
    reveal_strlit("name");
    reveal_strlit("url");
    reveal_strlit("published");
    reveal_strlit("image");
    reveal_strlit("attributedTo");
    reveal_strlit("audience");
    reveal_strlit("content");
    reveal_strlit("summary");
    reveal_strlit("duration");
    reveal_strlit("preview");
    reveal_strlit("href");
    reveal_strlit("rel");
    reveal_strlit("mediaType");
    reveal_strlit("hreflang");
    reveal_strlit("height");
    reveal_strlit("width");
    reveal_strlit("actor");
    reveal_strlit("object");
    reveal_strlit("target");
    reveal_strlit("result");
    reveal_strlit("to");
    reveal_strlit("origin");
    reveal_strlit("instrument");
    reveal_strlit("preferredUsername");
    reveal_strlit("inbox");
    reveal_strlit("outbox");
    reveal_strlit("followers");
    reveal_strlit("following");
    reveal_strlit("liked");
    reveal_strlit("publicKey");
    reveal_strlit("owner");
    reveal_strlit("publicKeyPem");
    reveal_strlit("totalItems");
    reveal_strlit("items");
    reveal_strlit("orderedItems");
    reveal_strlit("partOf");
    reveal_strlit("next");
    reveal_strlit("prev");
    reveal_strlit("@context");
    reveal_strlit("@vocab");
    reveal_strlit("@language");
}


/// Every member value of the list is a well-formed tree.
pub open spec fn wf_members(m: Seq<(Seq<char>, JsonV)>) -> bool {
    forall|i: int| 0 <= i < m.len() ==> crate::json::wf_json(#[trigger] m[i].1)
}

/// Every element of the list is a well-formed tree.
pub open spec fn wf_elems(a: Seq<JsonV>) -> bool {
    forall|i: int| 0 <= i < a.len() ==> crate::json::wf_json(#[trigger] a[i])
}

/// Well-formedness of members splits over concatenation.
pub proof fn lemma_wf_members_concat(a: Seq<(Seq<char>, JsonV)>, b: Seq<(Seq<char>, JsonV)>)
    requires
        wf_members(a),
        wf_members(b),
    ensures
        wf_members(a + b),
{
    assert forall|i: int| 0 <= i < (a + b).len() implies crate::json::wf_json(
        #[trigger] (a + b)[i].1,
    ) by {
        if i < a.len() {
            assert((a + b)[i] == a[i]);
        } else {
            assert((a + b)[i] == b[i - a.len()]);
        }
    }
}

/// The view of an optional string.
pub open spec fn vo(o: Option<String>) -> Option<Seq<char>> {
    match o {
        Some(s) => Some(s@),
        None => None,
    }
}

/// The element-wise view of a vector of strings.
pub open spec fn strs_view(s: Seq<String>) -> Seq<Seq<char>>
    decreases s.len(),
{
    if s.len() == 0 {
        Seq::empty()
    } else {
        seq![s[0]@] + strs_view(s.subrange(1, s.len() as int))
    }
}

/// `strs_view` is the element-wise view.
pub proof fn lemma_strs_view(s: Seq<String>)
    ensures
        strs_view(s).len() == s.len(),
        forall|i: int| 0 <= i < s.len() ==> strs_view(s)[i] == s[i]@,
    decreases s.len(),
{
    if s.len() > 0 {
        let t = s.subrange(1, s.len() as int);
        lemma_strs_view(t);
        assert forall|i: int| 0 <= i < s.len() implies strs_view(s)[i] == s[i]@ by {
            if i > 0 {
                assert(strs_view(s)[i] == strs_view(t)[i - 1]);
                assert(t[i - 1] == s[i]);
            }
        }
    }
}

/// Append one member.
pub fn push_field(out: &mut Vec<(String, Json)>, key: &str, j: Json)
    ensures
        obj_view(final(out)@) == obj_view(old(out)@) + seq![(key@, j@)],
{
    let ghost old_out = out@;
    out.push((key.to_owned(), j));
    proof {
        crate::json::lemma_obj_view(out@);
        crate::json::lemma_obj_view(old_out);
        assert(obj_view(out@) =~= obj_view(old_out) + seq![(key@, out@[out@.len() - 1].1@)]);
    }
}

/// Append the member of an optional string field, if set.
pub fn push_str_field(out: &mut Vec<(String, Json)>, key: &str, o: &Option<String>)
    ensures
        obj_view(final(out)@) == obj_view(old(out)@) + put_str(key@, vo(*o)),
{
    match o {
        Some(s) => {
            push_field(out, key, Json::Str(s.clone()));
        },
        None => {
            assert(obj_view(out@) =~= obj_view(out@) + put_str(key@, vo(*o)));
        },
    }
}

/// Append the member of an optional timestamp field, if set.
pub fn push_ts_field(out: &mut Vec<(String, Json)>, key: &str, o: &Option<Timestamp>)
    requires
        (*o) matches Some(t) ==> crate::timestamp::ts_wf(t),
    ensures
        obj_view(final(out)@) == obj_view(old(out)@) + put_ts(key@, *o),
{
    match o {
        Some(t) => {
            let mut cs: Vec<char> = Vec::new();
            crate::timestamp::ts_to_chars(t, &mut cs);
            push_field(out, key, Json::Str(crate::json::chars_to_string(&cs)));
        },
        None => {
            assert(obj_view(out@) =~= obj_view(out@) + put_ts(key@, *o));
        },
    }
}

/// Append the member of an optional `u32` field, if set.
pub fn push_u32_field(out: &mut Vec<(String, Json)>, key: &str, o: &Option<u32>)
    ensures
        obj_view(final(out)@) == obj_view(old(out)@) + put_u32(key@, *o),
{
    match o {
        Some(n) => {
            let mut cs: Vec<char> = Vec::new();
            crate::num::push_u64_digits(*n as u64, &mut cs);
            push_field(out, key, Json::Num(crate::json::chars_to_string(&cs)));
        },
        None => {
            assert(obj_view(out@) =~= obj_view(out@) + put_u32(key@, *o));
        },
    }
}

/// Append the member of an optional `usize` field, if set.
pub fn push_usize_field(out: &mut Vec<(String, Json)>, key: &str, o: &Option<usize>)
    ensures
        obj_view(final(out)@) == obj_view(old(out)@) + put_usize(key@, *o),
{
    match o {
        Some(n) => {
            let mut cs: Vec<char> = Vec::new();
            crate::num::push_u64_digits(*n as u64, &mut cs);
            push_field(out, key, Json::Num(crate::json::chars_to_string(&cs)));
        },
        None => {
            assert(obj_view(out@) =~= obj_view(out@) + put_usize(key@, *o));
        },
    }
}

/// A vector of strings as a vector of JSON string values.
pub fn strs_to_json(v: &Vec<String>) -> (r: Vec<Json>)
    ensures
        crate::json::arr_view(r@) == strs_json(strs_view(v@)),
{
    let mut r: Vec<Json> = Vec::new();
    let mut i: usize = 0;
    proof {
        lemma_strs_view(v@);
    }
    while i < v.len()
        invariant
            0 <= i <= v@.len(),
            strs_view(v@).len() == v@.len(),
            forall|q: int| 0 <= q < v@.len() ==> strs_view(v@)[q] == v@[q]@,
            crate::json::arr_view(r@) == strs_json(strs_view(v@).subrange(0, i as int)),
        decreases v@.len() - i,
    {
        let ghost r0 = r@;
        r.push(Json::Str(v[i].clone()));
        proof {
            crate::json::lemma_arr_view(r@);
            crate::json::lemma_arr_view(r0);
            lemma_strs_json_snoc(strs_view(v@).subrange(0, i as int), v@[i as int]@);
            assert(strs_view(v@).subrange(0, i + 1) =~= strs_view(v@).subrange(0, i as int).push(
                v@[i as int]@,
            ));
            assert(crate::json::arr_view(r@) =~= crate::json::arr_view(r0).push(
                JsonV::Str(v@[i as int]@),
            ));
        }
        i = i + 1;
    }
    proof {
        assert(strs_view(v@).subrange(0, v@.len() as int) =~= strs_view(v@));
    }
    r
}

/// `strs_json` distributes over appending one string.
pub proof fn lemma_strs_json_snoc(ss: Seq<Seq<char>>, s: Seq<char>)
    ensures
        strs_json(ss.push(s)) == strs_json(ss).push(JsonV::Str(s)),
    decreases ss.len(),
{
    let w = ss.push(s);
    assert(strs_json(w) == seq![JsonV::Str(w[0])] + strs_json(w.subrange(1, w.len() as int)));
    if ss.len() == 0 {
        assert(w[0] == s);
        assert(w.subrange(1, w.len() as int) =~= Seq::<Seq<char>>::empty());
        assert(strs_json(w) =~= strs_json(ss).push(JsonV::Str(s)));
    } else {
        let t = ss.subrange(1, ss.len() as int);
        lemma_strs_json_snoc(t, s);
        assert(w.subrange(1, w.len() as int) =~= t.push(s));
        assert(w[0] == ss[0]);
        assert(strs_json(ss) == seq![JsonV::Str(ss[0])] + strs_json(t));
        assert(strs_json(w) =~= strs_json(ss).push(JsonV::Str(s)));
    }
}

/// Find the first member with the given key, returning a borrow of its
/// value and the fact that it is one of the list's members.
pub fn get<'a>(m: &'a Vec<(String, Json)>, key: &str) -> (r: Option<&'a Json>)
    ensures
        match r {
            Some(j) => lookup(obj_view(m@), key@) == Some(j@) && exists|i: int|
                0 <= i < m@.len() && *j == #[trigger] m@[i].1,
            None => lookup(obj_view(m@), key@) is None,
        },
{
    let ks: String = key.to_owned();
    proof {
        assert(obj_view(m@).subrange(0, m@.len() as int) =~= obj_view(m@)) by {
            crate::json::lemma_obj_view(m@);
        }
    }
    get_from(m, 0, &ks)
}

fn get_from<'a>(m: &'a Vec<(String, Json)>, i: usize, key: &String) -> (r: Option<&'a Json>)
    requires
        i <= m@.len(),
    ensures
        match r {
            Some(j) => lookup(obj_view(m@).subrange(i as int, m@.len() as int), key@) == Some(j@)
                && exists|q: int| 0 <= q < m@.len() && *j == #[trigger] m@[q].1,
            None => lookup(obj_view(m@).subrange(i as int, m@.len() as int), key@) is None,
        },
    decreases m@.len() - i,
{
    proof {
        crate::json::lemma_obj_view(m@);
    }
    if i >= m.len() {
        proof {
            assert(obj_view(m@).subrange(i as int, m@.len() as int) =~= Seq::<(
                Seq<char>,
                JsonV,
            )>::empty());
        }
        return None;
    }
    let ghost mv = obj_view(m@);
    let ghost t = mv.subrange(i as int, mv.len() as int);
    proof {
        assert(t[0] == mv[i as int]);
        assert(t.subrange(1, t.len() as int) =~= mv.subrange(i + 1, mv.len() as int));
    }
    if m[i].0.eq(key) {
        let j = &m[i].1;
        proof {
            assert(*j == m@[i as int].1);
        }
        Some(j)
    } else {
        get_from(m, i + 1, key)
    }
}

/// Read an optional string field.
pub fn get_str(m: &Vec<(String, Json)>, key: &str) -> (r: Result<Option<String>, ParseError>)
    ensures
        match r {
            Ok(o) => f_str(obj_view(m@), key@) == Ok::<Option<Seq<char>>, ParseError>(vo(o)),
            Err(e) => f_str(obj_view(m@), key@) == Err::<Option<Seq<char>>, ParseError>(e),
        },
{
    match get(m, key) {
        None => Ok(None),
        Some(Json::Str(s)) => Ok(Some(s.clone())),
        Some(_) => Err(ParseError::Shape),
    }
}

/// Read a required string field.
pub fn get_req_str(m: &Vec<(String, Json)>, key: &str) -> (r: Result<String, ParseError>)
    ensures
        match r {
            Ok(s) => f_req_str(obj_view(m@), key@) == Ok::<Seq<char>, ParseError>(s@),
            Err(e) => f_req_str(obj_view(m@), key@) == Err::<Seq<char>, ParseError>(e),
        },
{
    match get(m, key) {
        Some(Json::Str(s)) => Ok(s.clone()),
        _ => Err(ParseError::Shape),
    }
}

/// Read an optional `u32` field.
pub fn get_u32(m: &Vec<(String, Json)>, key: &str) -> (r: Result<Option<u32>, ParseError>)
    ensures
        match r {
            Ok(o) => f_u32(obj_view(m@), key@) == Ok::<Option<u32>, ParseError>(o),
            Err(e) => f_u32(obj_view(m@), key@) == Err::<Option<u32>, ParseError>(e),
        },
{
    match get(m, key) {
        None => Ok(None),
        Some(Json::Num(lex)) => {
            let cs = crate::json::string_to_chars(lex.as_str());
            match crate::num::parse_u64_digits(&cs) {
                Some(n) => if n <= u32::MAX as u64 {
                    Ok(Some(n as u32))
                } else {
                    Err(ParseError::Shape)
                },
                None => Err(ParseError::Shape),
            }
        },
        Some(_) => Err(ParseError::Shape),
    }
}

/// Read an optional `usize` field.
pub fn get_usize(m: &Vec<(String, Json)>, key: &str) -> (r: Result<Option<usize>, ParseError>)
    ensures
        match r {
            Ok(o) => f_usize(obj_view(m@), key@) == Ok::<Option<usize>, ParseError>(o),
            Err(e) => f_usize(obj_view(m@), key@) == Err::<Option<usize>, ParseError>(e),
        },
{
    match get(m, key) {
        None => Ok(None),
        Some(Json::Num(lex)) => {
            let cs = crate::json::string_to_chars(lex.as_str());
            match crate::num::parse_u64_digits(&cs) {
                Some(n) => if n <= usize::MAX as u64 {
                    Ok(Some(n as usize))
                } else {
                    Err(ParseError::Shape)
                },
                None => Err(ParseError::Shape),
            }
        },
        Some(_) => Err(ParseError::Shape),
    }
}

/// Read an optional timestamp field.
pub fn get_ts(m: &Vec<(String, Json)>, key: &str) -> (r: Result<Option<Timestamp>, ParseError>)
    ensures
        match r {
            Ok(o) => f_ts(obj_view(m@), key@) == Ok::<Option<Timestamp>, ParseError>(o),
            Err(e) => f_ts(obj_view(m@), key@) == Err::<Option<Timestamp>, ParseError>(e),
        },
{
    match get(m, key) {
        None => Ok(None),
        Some(Json::Str(s)) => {
            let cs = crate::json::string_to_chars(s.as_str());
            match ts_from_chars(&cs) {
                Some(t) => Ok(Some(t)),
                None => Err(ParseError::Shape),
            }
        },
        Some(_) => Err(ParseError::Shape),
    }
}

/// Read an optional array-of-strings field.
pub fn get_str_arr(m: &Vec<(String, Json)>, key: &str) -> (r: Result<
    Option<Vec<String>>,
    ParseError,
>)
    ensures
        match r {
            Ok(Some(v)) => f_str_arr(obj_view(m@), key@) == Ok::<Option<Seq<Seq<char>>>, ParseError>(
                Some(strs_view(v@)),
            ),
            Ok(None) => f_str_arr(obj_view(m@), key@) == Ok::<Option<Seq<Seq<char>>>, ParseError>(
                None,
            ),
            Err(e) => f_str_arr(obj_view(m@), key@) == Err::<Option<Seq<Seq<char>>>, ParseError>(e),
        },
{
    match get(m, key) {
        None => Ok(None),
        Some(Json::Arr(a)) => {
            proof {
                crate::json::lemma_arr_view(a@);
                assert(crate::json::arr_view(a@).subrange(0, a@.len() as int)
                    =~= crate::json::arr_view(a@));
            }
            match strs_from_arr(a, 0) {
                Ok(v) => Ok(Some(v)),
                Err(e) => Err(e),
            }
        },
        Some(_) => Err(ParseError::Shape),
    }
}

fn strs_from_arr(a: &Vec<Json>, i: usize) -> (r: Result<Vec<String>, ParseError>)
    requires
        i <= a@.len(),
    ensures
        match r {
            Ok(v) => strs_from(crate::json::arr_view(a@).subrange(i as int, a@.len() as int))
                == Ok::<Seq<Seq<char>>, ParseError>(strs_view(v@)),
            Err(e) => strs_from(crate::json::arr_view(a@).subrange(i as int, a@.len() as int))
                == Err::<Seq<Seq<char>>, ParseError>(e),
        },
    decreases a@.len() - i,
{
    proof {
        crate::json::lemma_arr_view(a@);
    }
    let ghost av = crate::json::arr_view(a@);
    let ghost t = av.subrange(i as int, av.len() as int);
    if i >= a.len() {
        proof {
            assert(t =~= Seq::<JsonV>::empty());
            assert(strs_view(Seq::<String>::empty()) =~= Seq::<Seq<char>>::empty());
        }
        return Ok(Vec::new());
    }
    proof {
        assert(t[0] == av[i as int]);
        assert(t.subrange(1, t.len() as int) =~= av.subrange(i + 1, av.len() as int));
    }
    match &a[i] {
        Json::Str(s) => {
            let first = s.clone();
            match strs_from_arr(a, i + 1) {
                Ok(mut rest) => {
                    let ghost rest0 = rest@;
                    rest.insert(0, first);
                    proof {
                        lemma_strs_view(rest@);
                        lemma_strs_view(rest0);
                        assert(strs_view(rest@) =~= seq![s@] + strs_view(rest0));
                    }
                    Ok(rest)
                },
                Err(e) => Err(e),
            }
        },
        _ => Err(ParseError::Shape),
    }
}

} // verus!
