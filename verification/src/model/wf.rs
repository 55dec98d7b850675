//! Every wire tree this library emits is well formed: each number lexeme
//! in it is a canonical digit string. These lemmas feed the codec round
//! trip at the level of JSON text.
use vstd::prelude::*;
use crate::json::{JsonV, wf_json};
use crate::fields::{
    wf_members, wf_elems, lemma_wf_members_concat, put_str, put_ts, put_u32, put_usize, strs_json,
};
use crate::model::object::{
    ObjectV, LinkV, PreviewV, AttributedToV, obj_wf, obj_fields, link_fields, preview_fields,
    att_seq_json, att_json, att_seq_wf, att_wf,
};
use crate::model::actor::{ActorV, actor_wf, actor_fields, actor_own, pki_fields};
use crate::model::activity::{ActivityV, activity_wf, activity_fields, activity_own};
use crate::model::collection::{
    CollectionV, PageV, coll_wf, page_wf, coll_own_at, coll_fields, ocoll_fields, page_own,
    page_fields, opage_fields, objs_json, objs_wf,
};

verus! {

broadcast use vstd::seq::group_seq_axioms, vstd::std_specs::vec::group_vec_axioms;

/// The members of an optional string field are well formed.
proof fn lemma_put_str_wf(k: Seq<char>, o: Option<Seq<char>>)
    ensures
        wf_members(put_str(k, o)),
{
}

/// The members of an optional timestamp field are well formed.
proof fn lemma_put_ts_wf(k: Seq<char>, o: Option<crate::timestamp::Timestamp>)
    ensures
        wf_members(put_ts(k, o)),
{
}

/// The members of an optional `u32` field are well formed.
proof fn lemma_put_u32_wf(k: Seq<char>, o: Option<u32>)
    ensures
        wf_members(put_u32(k, o)),
{
    match o {
        Some(n) => {
            crate::num::lemma_dec_digits(n as nat);
        },
        None => {},
    }
}

/// The members of an optional `usize` field are well formed.
proof fn lemma_put_usize_wf(k: Seq<char>, o: Option<usize>)
    ensures
        wf_members(put_usize(k, o)),
{
    match o {
        Some(n) => {
            crate::num::lemma_dec_digits(n as nat);
        },
        None => {},
    }
}

/// String arrays are well formed.
proof fn lemma_strs_json_wf(ss: Seq<Seq<char>>)
    ensures
        wf_elems(strs_json(ss)),
        wf_json(JsonV::Arr(strs_json(ss))),
    decreases ss.len(),
{
    if ss.len() > 0 {
        let t = ss.subrange(1, ss.len() as int);
        lemma_strs_json_wf(t);
        let w = strs_json(ss);
        assert(w == seq![JsonV::Str(ss[0])] + strs_json(t));
        assert forall|i: int| 0 <= i < w.len() implies wf_json(#[trigger] w[i]) by {
            if i > 0 {
                assert(w[i] == strs_json(t)[i - 1]);
            }
        }
    }
}

/// An object's wire members are well formed.
pub proof fn lemma_obj_fields_wf(v: ObjectV)
    ensures
        wf_members(obj_fields(v)),
        wf_json(JsonV::Obj(obj_fields(v))),
    decreases v, 1int,
{
    lemma_put_str_wf("type"@, v.object_type);
    lemma_put_str_wf("id"@, v.id);
    lemma_put_str_wf("name"@, v.name);
    lemma_put_str_wf("url"@, v.url);
    lemma_put_ts_wf("published"@, v.published);
    let s6 = match v.image {
        Some(l) => seq![("image"@, JsonV::Obj(link_fields(l)))],
        None => Seq::<(Seq<char>, JsonV)>::empty(),
    };
    match v.image {
        Some(l) => {
            lemma_link_fields_wf(l);
            assert(wf_members(s6));
        },
        None => {},
    }
    let s7 = if v.attributed_to.len() == 0 {
        Seq::<(Seq<char>, JsonV)>::empty()
    } else {
        seq![("attributedTo"@, JsonV::Arr(att_seq_json(v.attributed_to)))]
    };
    if v.attributed_to.len() > 0 {
        lemma_att_seq_json_wf(v.attributed_to);
        assert(wf_members(s7));
    }
    let s8 = match v.audience {
        Some(b) => seq![("audience"@, JsonV::Obj(obj_fields(*b)))],
        None => Seq::<(Seq<char>, JsonV)>::empty(),
    };
    match v.audience {
        Some(b) => {
            lemma_obj_fields_wf(*b);
            assert(wf_members(s8));
        },
        None => {},
    }
    lemma_put_str_wf("content"@, v.content);
    lemma_put_str_wf("summary"@, v.summary);
    lemma_put_str_wf("duration"@, v.duration);
    let s12 = match v.preview {
        Some(b) => seq![("preview"@, JsonV::Obj(preview_fields(*b)))],
        None => Seq::<(Seq<char>, JsonV)>::empty(),
    };
    match v.preview {
        Some(b) => {
            lemma_preview_fields_wf(*b);
            assert(wf_members(s12));
        },
        None => {},
    }
    let p1 = put_str("type"@, v.object_type);
    let p2 = put_str("id"@, v.id);
    let p3 = put_str("name"@, v.name);
    let p4 = put_str("url"@, v.url);
    let p5 = put_ts("published"@, v.published);
    let p9 = put_str("content"@, v.content);
    let p10 = put_str("summary"@, v.summary);
    let p11 = put_str("duration"@, v.duration);
    lemma_wf_members_concat(p1, p2);
    lemma_wf_members_concat(p1 + p2, p3);
    lemma_wf_members_concat(p1 + p2 + p3, p4);
    lemma_wf_members_concat(p1 + p2 + p3 + p4, p5);
    lemma_wf_members_concat(p1 + p2 + p3 + p4 + p5, s6);
    lemma_wf_members_concat(p1 + p2 + p3 + p4 + p5 + s6, s7);
    lemma_wf_members_concat(p1 + p2 + p3 + p4 + p5 + s6 + s7, s8);
    lemma_wf_members_concat(p1 + p2 + p3 + p4 + p5 + s6 + s7 + s8, p9);
    lemma_wf_members_concat(p1 + p2 + p3 + p4 + p5 + s6 + s7 + s8 + p9, p10);
    lemma_wf_members_concat(p1 + p2 + p3 + p4 + p5 + s6 + s7 + s8 + p9 + p10, p11);
    lemma_wf_members_concat(p1 + p2 + p3 + p4 + p5 + s6 + s7 + s8 + p9 + p10 + p11, s12);
}

/// The array of polymorphic values is well formed.
proof fn lemma_att_seq_json_wf(s: Seq<AttributedToV>)
    ensures
        wf_elems(att_seq_json(s)),
        wf_json(JsonV::Arr(att_seq_json(s))),
    decreases s, 3int,
{
    if s.len() > 0 {
        let t = s.subrange(1, s.len() as int);
        lemma_att_seq_json_wf(t);
        lemma_att_json_wf(s[0]);
        let w = att_seq_json(s);
        assert(w == seq![att_json(s[0])] + att_seq_json(t));
        assert forall|i: int| 0 <= i < w.len() implies wf_json(#[trigger] w[i]) by {
            if i > 0 {
                assert(w[i] == att_seq_json(t)[i - 1]);
            }
        }
    }
}

/// One polymorphic value's wire form is well formed.
proof fn lemma_att_json_wf(a: AttributedToV)
    ensures
        wf_json(att_json(a)),
    decreases a, 2int,
{
    match a {
        AttributedToV::Object(o) => lemma_obj_fields_wf(o),
        AttributedToV::Link(l) => lemma_link_fields_wf(l),
    }
}

/// A link's wire members are well formed.
pub proof fn lemma_link_fields_wf(v: LinkV)
    ensures
        wf_members(link_fields(v)),
        wf_json(JsonV::Obj(link_fields(v))),
    decreases v, 1int,
{
    lemma_put_str_wf("type"@, v.link_type);
    let s2 = seq![("href"@, JsonV::Str(v.href))];
    let s3 = if v.rel.len() == 0 {
        Seq::<(Seq<char>, JsonV)>::empty()
    } else {
        seq![("rel"@, JsonV::Arr(strs_json(v.rel)))]
    };
    if v.rel.len() > 0 {
        lemma_strs_json_wf(v.rel);
        assert(wf_members(s3));
    }
    lemma_put_str_wf("mediaType"@, v.media_type);
    lemma_put_str_wf("name"@, v.name);
    lemma_put_str_wf("hreflang"@, v.hreflang);
    lemma_put_u32_wf("height"@, v.height);
    lemma_put_u32_wf("width"@, v.width);
    let s9 = match v.preview {
        Some(p) => seq![("preview"@, JsonV::Obj(preview_fields(p)))],
        None => Seq::<(Seq<char>, JsonV)>::empty(),
    };
    match v.preview {
        Some(p) => {
            lemma_preview_fields_wf(p);
            assert(wf_members(s9));
        },
        None => {},
    }
    let p1 = put_str("type"@, v.link_type);
    let p4 = put_str("mediaType"@, v.media_type);
    let p5 = put_str("name"@, v.name);
    let p6 = put_str("hreflang"@, v.hreflang);
    let p7 = put_u32("height"@, v.height);
    let p8 = put_u32("width"@, v.width);
    lemma_wf_members_concat(p1, s2);
    lemma_wf_members_concat(p1 + s2, s3);
    lemma_wf_members_concat(p1 + s2 + s3, p4);
    lemma_wf_members_concat(p1 + s2 + s3 + p4, p5);
    lemma_wf_members_concat(p1 + s2 + s3 + p4 + p5, p6);
    lemma_wf_members_concat(p1 + s2 + s3 + p4 + p5 + p6, p7);
    lemma_wf_members_concat(p1 + s2 + s3 + p4 + p5 + p6 + p7, p8);
    lemma_wf_members_concat(p1 + s2 + s3 + p4 + p5 + p6 + p7 + p8, s9);
}

/// A preview's wire members are well formed.
pub proof fn lemma_preview_fields_wf(v: PreviewV)
    ensures
        wf_members(preview_fields(v)),
        wf_json(JsonV::Obj(preview_fields(v))),
    decreases v, 1int,
{
    lemma_put_str_wf("type"@, v.object_type);
    lemma_put_str_wf("name"@, v.name);
    lemma_put_str_wf("duration"@, v.duration);
    let s4 = match v.url {
        Some(b) => seq![("url"@, JsonV::Obj(link_fields(*b)))],
        None => Seq::<(Seq<char>, JsonV)>::empty(),
    };
    match v.url {
        Some(b) => {
            lemma_link_fields_wf(*b);
            assert(wf_members(s4));
        },
        None => {},
    }
    let p1 = put_str("type"@, v.object_type);
    let p2 = put_str("name"@, v.name);
    let p3 = put_str("duration"@, v.duration);
    lemma_wf_members_concat(p1, p2);
    lemma_wf_members_concat(p1 + p2, p3);
    lemma_wf_members_concat(p1 + p2 + p3, s4);
}

/// An actor's wire members are well formed.
pub proof fn lemma_actor_fields_wf(v: ActorV)
    ensures
        wf_members(actor_fields(v)),
        wf_json(JsonV::Obj(actor_fields(v))),
{
    lemma_obj_fields_wf(v.base);
    lemma_put_str_wf("preferredUsername"@, v.preferred_username);
    lemma_put_str_wf("inbox"@, v.inbox);
    lemma_put_str_wf("outbox"@, v.outbox);
    lemma_put_str_wf("followers"@, v.followers);
    lemma_put_str_wf("following"@, v.following);
    lemma_put_str_wf("liked"@, v.liked);
    let s7 = match v.public_key_info {
        Some(k) => seq![("publicKey"@, JsonV::Obj(pki_fields(k)))],
        None => Seq::<(Seq<char>, JsonV)>::empty(),
    };
    match v.public_key_info {
        Some(k) => {
            assert(wf_json(JsonV::Obj(pki_fields(k)))) by {
                assert(wf_members(pki_fields(k)));
            }
            assert(wf_members(s7));
        },
        None => {},
    }
    let p1 = put_str("preferredUsername"@, v.preferred_username);
    let p2 = put_str("inbox"@, v.inbox);
    let p3 = put_str("outbox"@, v.outbox);
    let p4 = put_str("followers"@, v.followers);
    let p5 = put_str("following"@, v.following);
    let p6 = put_str("liked"@, v.liked);
    lemma_wf_members_concat(p1, p2);
    lemma_wf_members_concat(p1 + p2, p3);
    lemma_wf_members_concat(p1 + p2 + p3, p4);
    lemma_wf_members_concat(p1 + p2 + p3 + p4, p5);
    lemma_wf_members_concat(p1 + p2 + p3 + p4 + p5, p6);
    lemma_wf_members_concat(p1 + p2 + p3 + p4 + p5 + p6, s7);
    lemma_wf_members_concat(obj_fields(v.base), actor_own(v));
}

/// An activity's wire members are well formed.
pub proof fn lemma_activity_fields_wf(v: ActivityV)
    ensures
        wf_members(activity_fields(v)),
        wf_json(JsonV::Obj(activity_fields(v))),
{
    lemma_obj_fields_wf(v.base);
    let s1 = match v.actor {
        Some(a) => seq![("actor"@, JsonV::Obj(actor_fields(a)))],
        None => Seq::<(Seq<char>, JsonV)>::empty(),
    };
    match v.actor {
        Some(a) => {
            lemma_actor_fields_wf(a);
            assert(wf_members(s1));
        },
        None => {},
    }
    let s2 = match v.object {
        Some(o) => seq![("object"@, JsonV::Obj(obj_fields(o)))],
        None => Seq::<(Seq<char>, JsonV)>::empty(),
    };
    match v.object {
        Some(o) => {
            lemma_obj_fields_wf(o);
            assert(wf_members(s2));
        },
        None => {},
    }
    let s3 = match v.target {
        Some(o) => seq![("target"@, JsonV::Obj(obj_fields(o)))],
        None => Seq::<(Seq<char>, JsonV)>::empty(),
    };
    match v.target {
        Some(o) => {
            lemma_obj_fields_wf(o);
            assert(wf_members(s3));
        },
        None => {},
    }
    let s4 = put_str("result"@, v.result);
    lemma_put_str_wf("result"@, v.result);
    let s5 = match v.to {
        Some(ss) => seq![("to"@, JsonV::Arr(strs_json(ss)))],
        None => Seq::<(Seq<char>, JsonV)>::empty(),
    };
    match v.to {
        Some(ss) => {
            lemma_strs_json_wf(ss);
            assert(wf_members(s5));
        },
        None => {},
    }
    let s6 = put_str("origin"@, v.origin);
    lemma_put_str_wf("origin"@, v.origin);
    let s7 = put_str("instrument"@, v.instrument);
    lemma_put_str_wf("instrument"@, v.instrument);
    lemma_wf_members_concat(s1, s2);
    lemma_wf_members_concat(s1 + s2, s3);
    lemma_wf_members_concat(s1 + s2 + s3, s4);
    lemma_wf_members_concat(s1 + s2 + s3 + s4, s5);
    lemma_wf_members_concat(s1 + s2 + s3 + s4 + s5, s6);
    lemma_wf_members_concat(s1 + s2 + s3 + s4 + s5 + s6, s7);
    lemma_wf_members_concat(obj_fields(v.base), activity_own(v));
}

/// The item array of a collection is well formed.
proof fn lemma_objs_json_wf(s: Seq<ObjectV>)
    ensures
        wf_elems(objs_json(s)),
        wf_json(JsonV::Arr(objs_json(s))),
    decreases s.len(),
{
    if s.len() > 0 {
        let t = s.subrange(1, s.len() as int);
        lemma_objs_json_wf(t);
        lemma_obj_fields_wf(s[0]);
        let w = objs_json(s);
        assert(w == seq![JsonV::Obj(obj_fields(s[0]))] + objs_json(t));
        assert forall|i: int| 0 <= i < w.len() implies wf_json(#[trigger] w[i]) by {
            if i > 0 {
                assert(w[i] == objs_json(t)[i - 1]);
            }
        }
    }
}

/// A collection's wire members, under either item key, are well formed.
pub proof fn lemma_coll_own_wf(key: Seq<char>, total_items: Option<usize>, items: Seq<ObjectV>)
    ensures
        wf_members(coll_own_at(key, total_items, items)),
{
    lemma_put_usize_wf("totalItems"@, total_items);
    let s2 = if items.len() == 0 {
        Seq::<(Seq<char>, JsonV)>::empty()
    } else {
        seq![(key, JsonV::Arr(objs_json(items)))]
    };
    if items.len() > 0 {
        lemma_objs_json_wf(items);
        assert(wf_members(s2));
    }
    lemma_wf_members_concat(put_usize("totalItems"@, total_items), s2);
}

/// An unordered collection's wire members are well formed.
pub proof fn lemma_coll_fields_wf(v: CollectionV)
    ensures
        wf_members(coll_fields(v)),
        wf_json(JsonV::Obj(coll_fields(v))),
{
    lemma_obj_fields_wf(v.base);
    lemma_coll_own_wf("items"@, v.total_items, v.items);
    lemma_wf_members_concat(obj_fields(v.base), coll_own_at("items"@, v.total_items, v.items));
}

/// An ordered collection's wire members are well formed.
pub proof fn lemma_ocoll_fields_wf(v: CollectionV)
    ensures
        wf_members(ocoll_fields(v)),
        wf_json(JsonV::Obj(ocoll_fields(v))),
{
    lemma_obj_fields_wf(v.base);
    lemma_coll_own_wf("orderedItems"@, v.total_items, v.items);
    lemma_wf_members_concat(
        obj_fields(v.base),
        coll_own_at("orderedItems"@, v.total_items, v.items),
    );
}

/// A page's wire members are well formed, under either item key.
pub proof fn lemma_page_fields_wf(v: PageV)
    ensures
        wf_members(page_fields(v)),
        wf_json(JsonV::Obj(page_fields(v))),
        wf_members(opage_fields(v)),
        wf_json(JsonV::Obj(opage_fields(v))),
{
    lemma_coll_fields_wf(v.base);
    lemma_ocoll_fields_wf(v.base);
    let s1 = seq![("partOf"@, JsonV::Str(v.part_of))];
    let s2 = put_str("next"@, v.next);
    let s3 = put_str("prev"@, v.prev);
    lemma_put_str_wf("next"@, v.next);
    lemma_put_str_wf("prev"@, v.prev);
    assert(wf_members(s1));
    lemma_wf_members_concat(s1, s2);
    lemma_wf_members_concat(s1 + s2, s3);
    lemma_wf_members_concat(coll_fields(v.base), page_own(v));
    lemma_wf_members_concat(ocoll_fields(v.base), page_own(v));
}

} // verus!
