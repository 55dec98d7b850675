//! The base entity ([`Object`]), the reference entity ([`Link`]), previews,
//! and the polymorphic object-or-link value ([`AttributedTo`]).
//!
//! Every entity serializes as a flat JSON object; optional fields that are
//! unset and sequence fields that are empty contribute no member at all.
//! The polymorphic value carries no discriminator on the wire: the two
//! shapes are told apart by the presence of the `href` key, which every
//! serialized link carries and no serialized object does.
use vstd::prelude::*;
use crate::ParseError;
use crate::json::{Json, JsonV, obj_view};
use crate::timestamp::{Timestamp, ts_wf};
use crate::fields::{
    lookup, lemma_lookup_dec, f_str, f_req_str, f_u32, f_ts, f_str_arr, put_str, put_ts, put_u32,
    strs_json, strs_view, strs_from, vo,
};

verus! {

broadcast use vstd::seq::group_seq_axioms, vstd::std_specs::vec::group_vec_axioms, vstd::string::group_string_axioms;

/// The primary base type: a bag of optional attributes shared by every
/// vocabulary entity.
#[derive(Debug)]
pub struct Object {
    pub object_type: Option<String>,
    pub id: Option<String>,
    pub name: Option<String>,
    pub url: Option<String>,
    pub published: Option<Timestamp>,
    pub image: Option<Link>,
    pub attributed_to: Vec<AttributedTo>,
    pub audience: Option<Box<Object>>,
    pub content: Option<String>,
    pub summary: Option<String>,
    pub duration: Option<String>,
    pub preview: Option<Box<Preview>>,
}

/// An indirect, qualified reference to a resource identified by `href`:
/// the one entity with a required field.
#[derive(Debug)]
pub struct Link {
    pub link_type: Option<String>,
    pub href: String,
    pub rel: Vec<String>,
    pub media_type: Option<String>,
    pub name: Option<String>,
    pub hreflang: Option<String>,
    pub height: Option<u32>,
    pub width: Option<u32>,
    pub preview: Option<Preview>,
}

/// An entity that provides a preview of another.
#[derive(Debug)]
pub struct Preview {
    pub object_type: Option<String>,
    pub name: Option<String>,
    pub duration: Option<String>,
    pub url: Option<Box<Link>>,
}

/// A value that is either an embedded object or an embedded link, with no
/// discriminator of its own on the wire.
#[derive(Debug)]
pub enum AttributedTo {
    Object(Object),
    Link(Link),
}

/// An application actor type over a bare object.
#[derive(Debug)]
pub struct Application(pub Object);

/// A group actor type over a bare object.
#[derive(Debug)]
pub struct Group(pub Object);

/// An organization actor type over a bare object.
#[derive(Debug)]
pub struct Organization(pub Object);

/// A person actor type over a bare object.
#[derive(Debug)]
pub struct Person(pub Object);

/// A service actor type over a bare object.
#[derive(Debug)]
pub struct Service(pub Object);

/// The mathematical mirror of [`Object`].
pub ghost struct ObjectV {
    pub object_type: Option<Seq<char>>,
    pub id: Option<Seq<char>>,
    pub name: Option<Seq<char>>,
    pub url: Option<Seq<char>>,
    pub published: Option<Timestamp>,
    pub image: Option<LinkV>,
    pub attributed_to: Seq<AttributedToV>,
    pub audience: Option<Box<ObjectV>>,
    pub content: Option<Seq<char>>,
    pub summary: Option<Seq<char>>,
    pub duration: Option<Seq<char>>,
    pub preview: Option<Box<PreviewV>>,
}

/// The mathematical mirror of [`Link`].
pub ghost struct LinkV {
    pub link_type: Option<Seq<char>>,
    pub href: Seq<char>,
    pub rel: Seq<Seq<char>>,
    pub media_type: Option<Seq<char>>,
    pub name: Option<Seq<char>>,
    pub hreflang: Option<Seq<char>>,
    pub height: Option<u32>,
    pub width: Option<u32>,
    pub preview: Option<PreviewV>,
}

/// The mathematical mirror of [`Preview`].
pub ghost struct PreviewV {
    pub object_type: Option<Seq<char>>,
    pub name: Option<Seq<char>>,
    pub duration: Option<Seq<char>>,
    pub url: Option<Box<LinkV>>,
}

/// The mathematical mirror of [`AttributedTo`].
pub ghost enum AttributedToV {
    Object(ObjectV),
    Link(LinkV),
}

impl View for Object {
    type V = ObjectV;

    open spec fn view(&self) -> ObjectV
        decreases self,
    {
        ObjectV {
            object_type: vo(self.object_type),
            id: vo(self.id),
            name: vo(self.name),
            url: vo(self.url),
            published: self.published,
            image: match self.image {
                Some(l) => Some(l@),
                None => None,
            },
            attributed_to: att_seq_view(self.attributed_to@),
            audience: match self.audience {
                Some(b) => Some(Box::new((*b)@)),
                None => None,
            },
            content: vo(self.content),
            summary: vo(self.summary),
            duration: vo(self.duration),
            preview: match self.preview {
                Some(b) => Some(Box::new((*b)@)),
                None => None,
            },
        }
    }
}

/// The element-wise view of a sequence of polymorphic values.
pub open spec fn att_seq_view(s: Seq<AttributedTo>) -> Seq<AttributedToV>
    decreases s,
{
    if s.len() == 0 {
        Seq::empty()
    } else {
        seq![s[0]@] + att_seq_view(s.subrange(1, s.len() as int))
    }
}

/// `att_seq_view` is the element-wise view.
pub proof fn lemma_att_seq_view(s: Seq<AttributedTo>)
    ensures
        att_seq_view(s).len() == s.len(),
        forall|i: int| 0 <= i < s.len() ==> att_seq_view(s)[i] == s[i]@,
    decreases s.len(),
{
    if s.len() > 0 {
        let t = s.subrange(1, s.len() as int);
        lemma_att_seq_view(t);
        assert(att_seq_view(s) == seq![s[0]@] + att_seq_view(t));
        assert forall|i: int| 0 <= i < s.len() implies att_seq_view(s)[i] == s[i]@ by {
            if i > 0 {
                assert(att_seq_view(s)[i] == att_seq_view(t)[i - 1]);
                assert(t[i - 1] == s[i]);
            }
        }
    }
}

impl View for AttributedTo {
    type V = AttributedToV;

    open spec fn view(&self) -> AttributedToV
        decreases self,
    {
        match self {
            AttributedTo::Object(o) => AttributedToV::Object(o@),
            AttributedTo::Link(l) => AttributedToV::Link(l@),
        }
    }
}

impl View for Link {
    type V = LinkV;

    open spec fn view(&self) -> LinkV
        decreases self,
    {
        LinkV {
            link_type: vo(self.link_type),
            href: self.href@,
            rel: strs_view(self.rel@),
            media_type: vo(self.media_type),
            name: vo(self.name),
            hreflang: vo(self.hreflang),
            height: self.height,
            width: self.width,
            preview: match self.preview {
                Some(p) => Some(p@),
                None => None,
            },
        }
    }
}

impl View for Preview {
    type V = PreviewV;

    open spec fn view(&self) -> PreviewV
        decreases self,
    {
        PreviewV {
            object_type: vo(self.object_type),
            name: vo(self.name),
            duration: vo(self.duration),
            url: match self.url {
                Some(b) => Some(Box::new((*b)@)),
                None => None,
            },
        }
    }
}

/// Well-formedness of an object view: every timestamp it carries, at any
/// depth, lies within the wire format's ranges.
pub open spec fn obj_wf(v: ObjectV) -> bool
    decreases v,
{
    &&& match v.published {
        Some(t) => ts_wf(t),
        None => true,
    }
    &&& att_seq_wf(v.attributed_to)
    &&& match v.audience {
        Some(b) => obj_wf(*b),
        None => true,
    }
}

/// Well-formedness of a sequence of polymorphic values.
pub open spec fn att_seq_wf(s: Seq<AttributedToV>) -> bool
    decreases s,
{
    if s.len() == 0 {
        true
    } else {
        att_wf(s[0]) && att_seq_wf(s.subrange(1, s.len() as int))
    }
}

/// Well-formedness of one polymorphic value.
pub open spec fn att_wf(a: AttributedToV) -> bool
    decreases a,
{
    match a {
        AttributedToV::Object(o) => obj_wf(o),
        AttributedToV::Link(_) => true,
    }
}

/// The wire members of an object, in declaration order.
pub open spec fn obj_fields(v: ObjectV) -> Seq<(Seq<char>, JsonV)>
    decreases v,
{
    put_str("type"@, v.object_type) + put_str("id"@, v.id) + put_str("name"@, v.name) + put_str(
        "url"@,
        v.url,
    ) + put_ts("published"@, v.published) + (match v.image {
        Some(l) => seq![("image"@, JsonV::Obj(link_fields(l)))],
        None => Seq::empty(),
    }) + (if v.attributed_to.len() == 0 {
        Seq::empty()
    } else {
        seq![("attributedTo"@, JsonV::Arr(att_seq_json(v.attributed_to)))]
    }) + (match v.audience {
        Some(b) => seq![("audience"@, JsonV::Obj(obj_fields(*b)))],
        None => Seq::empty(),
    }) + put_str("content"@, v.content) + put_str("summary"@, v.summary) + put_str(
        "duration"@,
        v.duration,
    ) + (match v.preview {
        Some(b) => seq![("preview"@, JsonV::Obj(preview_fields(*b)))],
        None => Seq::empty(),
    })
}

/// The wire values of a sequence of polymorphic values.
pub open spec fn att_seq_json(s: Seq<AttributedToV>) -> Seq<JsonV>
    decreases s,
{
    if s.len() == 0 {
        Seq::empty()
    } else {
        seq![att_json(s[0])] + att_seq_json(s.subrange(1, s.len() as int))
    }
}

/// The wire value of one polymorphic value.
pub open spec fn att_json(a: AttributedToV) -> JsonV
    decreases a,
{
    match a {
        AttributedToV::Object(o) => JsonV::Obj(obj_fields(o)),
        AttributedToV::Link(l) => JsonV::Obj(link_fields(l)),
    }
}

/// The wire members of a link, in declaration order; `href` is always
/// present.
pub open spec fn link_fields(v: LinkV) -> Seq<(Seq<char>, JsonV)>
    decreases v,
{
    put_str("type"@, v.link_type) + seq![("href"@, JsonV::Str(v.href))] + (if v.rel.len() == 0 {
        Seq::empty()
    } else {
        seq![("rel"@, JsonV::Arr(strs_json(v.rel)))]
    }) + put_str("mediaType"@, v.media_type) + put_str("name"@, v.name) + put_str(
        "hreflang"@,
        v.hreflang,
    ) + put_u32("height"@, v.height) + put_u32("width"@, v.width) + (match v.preview {
        Some(p) => seq![("preview"@, JsonV::Obj(preview_fields(p)))],
        None => Seq::empty(),
    })
}

/// The wire members of a preview, in declaration order.
pub open spec fn preview_fields(v: PreviewV) -> Seq<(Seq<char>, JsonV)>
    decreases v,
{
    put_str("type"@, v.object_type) + put_str("name"@, v.name) + put_str("duration"@, v.duration)
        + (match v.url {
        Some(b) => seq![("url"@, JsonV::Obj(link_fields(*b)))],
        None => Seq::empty(),
    })
}

/// An optional embedded link under `k`.
pub open spec fn link_under(m: Seq<(Seq<char>, JsonV)>, k: Seq<char>) -> Result<
    Option<LinkV>,
    ParseError,
>
    decreases m, 0int,
    via link_under_dec
{
    match lookup(m, k) {
        None => Ok(None),
        Some(JsonV::Obj(m2)) => match link_from(m2) {
            Ok(l) => Ok(Some(l)),
            Err(e) => Err(e),
        },
        Some(_) => Err(ParseError::Shape),
    }
}

#[via_fn]
proof fn link_under_dec(m: Seq<(Seq<char>, JsonV)>, k: Seq<char>) {
    lemma_lookup_dec(m, k);
    match lookup(m, k) {
        Some(v) => match v {
            JsonV::Obj(m2) => {
                assert(decreases_to!(v => m2));
            },
            _ => {},
        },
        None => {},
    }
}

/// An optional embedded preview under `k`.
pub open spec fn preview_under(m: Seq<(Seq<char>, JsonV)>, k: Seq<char>) -> Result<
    Option<PreviewV>,
    ParseError,
>
    decreases m, 0int,
    via preview_under_dec
{
    match lookup(m, k) {
        None => Ok(None),
        Some(JsonV::Obj(m2)) => match preview_from(m2) {
            Ok(p) => Ok(Some(p)),
            Err(e) => Err(e),
        },
        Some(_) => Err(ParseError::Shape),
    }
}

#[via_fn]
proof fn preview_under_dec(m: Seq<(Seq<char>, JsonV)>, k: Seq<char>) {
    lemma_lookup_dec(m, k);
    match lookup(m, k) {
        Some(v) => match v {
            JsonV::Obj(m2) => {
                assert(decreases_to!(v => m2));
            },
            _ => {},
        },
        None => {},
    }
}

/// An optional embedded object under `k`.
pub open spec fn obj_under(m: Seq<(Seq<char>, JsonV)>, k: Seq<char>) -> Result<
    Option<ObjectV>,
    ParseError,
>
    decreases m, 0int,
    via obj_under_dec
{
    match lookup(m, k) {
        None => Ok(None),
        Some(JsonV::Obj(m2)) => match obj_from(m2) {
            Ok(o) => Ok(Some(o)),
            Err(e) => Err(e),
        },
        Some(_) => Err(ParseError::Shape),
    }
}

#[via_fn]
proof fn obj_under_dec(m: Seq<(Seq<char>, JsonV)>, k: Seq<char>) {
    lemma_lookup_dec(m, k);
    match lookup(m, k) {
        Some(v) => match v {
            JsonV::Obj(m2) => {
                assert(decreases_to!(v => m2));
            },
            _ => {},
        },
        None => {},
    }
}

/// The polymorphic values under `attributedTo`: absent means empty.
pub open spec fn att_under(m: Seq<(Seq<char>, JsonV)>) -> Result<Seq<AttributedToV>, ParseError>
    decreases m, 0int,
    via att_under_dec
{
    match lookup(m, "attributedTo"@) {
        None => Ok(Seq::empty()),
        Some(JsonV::Arr(a)) => att_arr_from(a),
        Some(_) => Err(ParseError::Shape),
    }
}

#[via_fn]
proof fn att_under_dec(m: Seq<(Seq<char>, JsonV)>) {
    lemma_lookup_dec(m, "attributedTo"@);
    match lookup(m, "attributedTo"@) {
        Some(v) => match v {
            JsonV::Arr(a) => {
                assert(decreases_to!(v => a));
            },
            _ => {},
        },
        None => {},
    }
}

/// Element-wise resolution of an array of polymorphic values.
pub open spec fn att_arr_from(a: Seq<JsonV>) -> Result<Seq<AttributedToV>, ParseError>
    decreases a, 1int,
{
    if a.len() == 0 {
        Ok(Seq::empty())
    } else {
        match att_from(a[0]) {
            Ok(first) => match att_arr_from(a.subrange(1, a.len() as int)) {
                Ok(rest) => Ok(seq![first] + rest),
                Err(e) => Err(e),
            },
            Err(e) => Err(e),
        }
    }
}

/// Resolve one polymorphic value. A JSON object with an `href` key is
/// taken as a link, one without as an object; the two shapes are thereby
/// mutually exclusive, so no trial order is involved. Any other JSON value
/// matches no variant.
pub open spec fn att_from(j: JsonV) -> Result<AttributedToV, ParseError>
    decreases j, 0int,
{
    match j {
        JsonV::Obj(m2) => if lookup(m2, "href"@) is Some {
            match link_from(m2) {
                Ok(l) => Ok(AttributedToV::Link(l)),
                Err(e) => Err(e),
            }
        } else {
            match obj_from(m2) {
                Ok(o) => Ok(AttributedToV::Object(o)),
                Err(e) => Err(e),
            }
        },
        _ => Err(ParseError::NoVariant),
    }
}

/// Read an object from the members of a flat JSON object, tolerating
/// unknown keys.
pub open spec fn obj_from(m: Seq<(Seq<char>, JsonV)>) -> Result<ObjectV, ParseError>
    decreases m, 1int,
{
    match f_str(m, "type"@) {
        Err(e) => Err(e),
        Ok(object_type) => match f_str(m, "id"@) {
            Err(e) => Err(e),
            Ok(id) => match f_str(m, "name"@) {
                Err(e) => Err(e),
                Ok(name) => match f_str(m, "url"@) {
                    Err(e) => Err(e),
                    Ok(url) => match f_ts(m, "published"@) {
                        Err(e) => Err(e),
                        Ok(published) => match link_under(m, "image"@) {
                            Err(e) => Err(e),
                            Ok(image) => match att_under(m) {
                                Err(e) => Err(e),
                                Ok(attributed_to) => match obj_under(m, "audience"@) {
                                    Err(e) => Err(e),
                                    Ok(audience) => match f_str(m, "content"@) {
                                        Err(e) => Err(e),
                                        Ok(content) => match f_str(m, "summary"@) {
                                            Err(e) => Err(e),
                                            Ok(summary) => match f_str(m, "duration"@) {
                                                Err(e) => Err(e),
                                                Ok(duration) => match preview_under(
                                                    m,
                                                    "preview"@,
                                                ) {
                                                    Err(e) => Err(e),
                                                    Ok(preview) => Ok(
                                                        ObjectV {
                                                            object_type,
                                                            id,
                                                            name,
                                                            url,
                                                            published,
                                                            image,
                                                            attributed_to,
                                                            audience: match audience {
                                                                Some(o) => Some(Box::new(o)),
                                                                None => None,
                                                            },
                                                            content,
                                                            summary,
                                                            duration,
                                                            preview: match preview {
                                                                Some(p) => Some(Box::new(p)),
                                                                None => None,
                                                            },
                                                        },
                                                    ),
                                                },
                                            },
                                        },
                                    },
                                },
                            },
                        },
                    },
                },
            },
        },
    }
}

/// Read a link from the members of a flat JSON object; `href` is required.
pub open spec fn link_from(m: Seq<(Seq<char>, JsonV)>) -> Result<LinkV, ParseError>
    decreases m, 1int,
{
    match f_str(m, "type"@) {
        Err(e) => Err(e),
        Ok(link_type) => match f_req_str(m, "href"@) {
            Err(e) => Err(e),
            Ok(href) => match f_str_arr(m, "rel"@) {
                Err(e) => Err(e),
                Ok(rel_opt) => match f_str(m, "mediaType"@) {
                    Err(e) => Err(e),
                    Ok(media_type) => match f_str(m, "name"@) {
                        Err(e) => Err(e),
                        Ok(name) => match f_str(m, "hreflang"@) {
                            Err(e) => Err(e),
                            Ok(hreflang) => match f_u32(m, "height"@) {
                                Err(e) => Err(e),
                                Ok(height) => match f_u32(m, "width"@) {
                                    Err(e) => Err(e),
                                    Ok(width) => match preview_under(m, "preview"@) {
                                        Err(e) => Err(e),
                                        Ok(preview) => Ok(
                                            LinkV {
                                                link_type,
                                                href,
                                                rel: match rel_opt {
                                                    Some(ss) => ss,
                                                    None => Seq::empty(),
                                                },
                                                media_type,
                                                name,
                                                hreflang,
                                                height,
                                                width,
                                                preview,
                                            },
                                        ),
                                    },
                                },
                            },
                        },
                    },
                },
            },
        },
    }
}

impl Object {
    /// The flat wire members of this object.
    pub fn to_fields(&self) -> (r: Vec<(String, Json)>)
        requires
            obj_wf(self@),
        ensures
            obj_view(r@) == obj_fields(self@),
        decreases self,
    {
        let mut out: Vec<(String, Json)> = Vec::new();
        proof {
            crate::json::lemma_obj_view(out@);
            assert(obj_view(out@) =~= Seq::<(Seq<char>, JsonV)>::empty());
        }
        crate::fields::push_str_field(&mut out, "type", &self.object_type);
        crate::fields::push_str_field(&mut out, "id", &self.id);
        crate::fields::push_str_field(&mut out, "name", &self.name);
        crate::fields::push_str_field(&mut out, "url", &self.url);
        crate::fields::push_ts_field(&mut out, "published", &self.published);
        match &self.image {
            Some(l) => {
                let lf = l.to_fields();
                crate::fields::push_field(&mut out, "image", Json::Obj(lf));
            },
            None => {},
        }
        proof {
            lemma_att_seq_view(self.attributed_to@);
            assert(att_seq_view(self.attributed_to@).subrange(
                0,
                att_seq_view(self.attributed_to@).len() as int,
            ) =~= att_seq_view(self.attributed_to@));
        }
        if self.attributed_to.len() > 0 {
            let aj = att_vec_to_json(&self.attributed_to, 0);
            crate::fields::push_field(&mut out, "attributedTo", Json::Arr(aj));
        }
        match &self.audience {
            Some(b) => {
                let bf = (**b).to_fields();
                crate::fields::push_field(&mut out, "audience", Json::Obj(bf));
            },
            None => {},
        }
        crate::fields::push_str_field(&mut out, "content", &self.content);
        crate::fields::push_str_field(&mut out, "summary", &self.summary);
        crate::fields::push_str_field(&mut out, "duration", &self.duration);
        match &self.preview {
            Some(b) => {
                let pf = (**b).to_fields();
                crate::fields::push_field(&mut out, "preview", Json::Obj(pf));
            },
            None => {},
        }
        proof {
            assert(obj_view(out@) =~= obj_fields(self@));
        }
        out
    }

    /// Read an object from flat wire members, ignoring unknown keys.
    pub fn from_fields(m: &Vec<(String, Json)>) -> (r: Result<Object, ParseError>)
        ensures
            match r {
                Ok(o) => obj_from(obj_view(m@)) == Ok::<ObjectV, ParseError>(o@),
                Err(e) => obj_from(obj_view(m@)) == Err::<ObjectV, ParseError>(e),
            },
        decreases m, 1int,
    {
        let ghost mv = obj_view(m@);
        let object_type = match crate::fields::get_str(m, "type") {
            Ok(o) => o,
            Err(e) => {
                return Err(e);
            },
        };
        let id = match crate::fields::get_str(m, "id") {
            Ok(o) => o,
            Err(e) => {
                return Err(e);
            },
        };
        let name = match crate::fields::get_str(m, "name") {
            Ok(o) => o,
            Err(e) => {
                return Err(e);
            },
        };
        let url = match crate::fields::get_str(m, "url") {
            Ok(o) => o,
            Err(e) => {
                return Err(e);
            },
        };
        let published = match crate::fields::get_ts(m, "published") {
            Ok(o) => o,
            Err(e) => {
                return Err(e);
            },
        };
        let image = match crate::fields::get(m, "image") {
            None => None,
            Some(j) => match j {
                Json::Obj(m2) => {
                    proof {
                        dec_member(m, j, m2);
                    }
                    match Link::from_fields(m2) {
                        Ok(l) => Some(l),
                        Err(e) => {
                            return Err(e);
                        },
                    }
                },
                _ => {
                    return Err(ParseError::Shape);
                },
            },
        };
        let attributed_to = match crate::fields::get(m, "attributedTo") {
            None => Vec::new(),
            Some(j) => match j {
                Json::Arr(a) => {
                    proof {
                        dec_member_arr(m, j, a);
                        crate::json::lemma_arr_view(a@);
                        assert(crate::json::arr_view(a@).subrange(0, a@.len() as int)
                            =~= crate::json::arr_view(a@));
                    }
                    match att_vec_from_json(a, 0) {
                        Ok(v) => v,
                        Err(e) => {
                            return Err(e);
                        },
                    }
                },
                _ => {
                    return Err(ParseError::Shape);
                },
            },
        };
        let audience = match crate::fields::get(m, "audience") {
            None => None,
            Some(j) => match j {
                Json::Obj(m2) => {
                    proof {
                        dec_member(m, j, m2);
                    }
                    match Object::from_fields(m2) {
                        Ok(o) => Some(Box::new(o)),
                        Err(e) => {
                            return Err(e);
                        },
                    }
                },
                _ => {
                    return Err(ParseError::Shape);
                },
            },
        };
        let content = match crate::fields::get_str(m, "content") {
            Ok(o) => o,
            Err(e) => {
                return Err(e);
            },
        };
        let summary = match crate::fields::get_str(m, "summary") {
            Ok(o) => o,
            Err(e) => {
                return Err(e);
            },
        };
        let duration = match crate::fields::get_str(m, "duration") {
            Ok(o) => o,
            Err(e) => {
                return Err(e);
            },
        };
        let preview = match crate::fields::get(m, "preview") {
            None => None,
            Some(j) => match j {
                Json::Obj(m2) => {
                    proof {
                        dec_member(m, j, m2);
                    }
                    match Preview::from_fields(m2) {
                        Ok(p) => Some(Box::new(p)),
                        Err(e) => {
                            return Err(e);
                        },
                    }
                },
                _ => {
                    return Err(ParseError::Shape);
                },
            },
        };
        proof {
            if attributed_to@.len() == 0 {
                lemma_att_seq_view(attributed_to@);
                assert(att_seq_view(attributed_to@) =~= Seq::<AttributedToV>::empty());
            }
        }
        Ok(
            Object {
                object_type,
                id,
                name,
                url,
                published,
                image,
                attributed_to,
                audience,
                content,
                summary,
                duration,
                preview,
            },
        )
    }
}

/// A member's embedded object is structurally beneath the member list.
proof fn dec_member(m: &Vec<(String, Json)>, j: &Json, m2: &Vec<(String, Json)>)
    requires
        exists|i: int| 0 <= i < m@.len() && *j == #[trigger] m@[i].1,
        *j == Json::Obj(*m2),
    ensures
        decreases_to!(*m => *m2),
{
    let i = choose|i: int| 0 <= i < m@.len() && *j == #[trigger] m@[i].1;
    assert(decreases_to!(*m => m@));
    assert(decreases_to!(m@ => m@[i]));
    assert(decreases_to!(m@[i] => m@[i].1));
    match *j {
        Json::Obj(mm) => {
            assert(decreases_to!(*j => mm));
            assert(mm == *m2);
        },
        _ => {},
    }
}

/// A member's embedded array is structurally beneath the member list.
proof fn dec_member_arr(m: &Vec<(String, Json)>, j: &Json, a: &Vec<Json>)
    requires
        exists|i: int| 0 <= i < m@.len() && *j == #[trigger] m@[i].1,
        *j == Json::Arr(*a),
    ensures
        decreases_to!(*m => *a),
{
    let i = choose|i: int| 0 <= i < m@.len() && *j == #[trigger] m@[i].1;
    assert(decreases_to!(*m => m@));
    assert(decreases_to!(m@ => m@[i]));
    assert(decreases_to!(m@[i] => m@[i].1));
    match *j {
        Json::Arr(aa) => {
            assert(decreases_to!(*j => aa));
            assert(aa == *a);
        },
        _ => {},
    }
}

/// The wire values of the polymorphic entries `v[i..]`.
fn att_vec_to_json(v: &Vec<AttributedTo>, i: usize) -> (r: Vec<Json>)
    requires
        i <= v@.len(),
        att_seq_wf(att_seq_view(v@).subrange(i as int, v@.len() as int)),
    ensures
        crate::json::arr_view(r@) == att_seq_json(
            att_seq_view(v@).subrange(i as int, v@.len() as int),
        ),
    decreases v, v@.len() - i,
{
    proof {
        lemma_att_seq_view(v@);
    }
    let ghost av = att_seq_view(v@);
    let ghost t = av.subrange(i as int, av.len() as int);
    if i >= v.len() {
        let r: Vec<Json> = Vec::new();
        proof {
            assert(t =~= Seq::<AttributedToV>::empty());
            crate::json::lemma_arr_view(r@);
            assert(crate::json::arr_view(r@) =~= att_seq_json(t));
        }
        return r;
    }
    proof {
        assert(t[0] == av[i as int]);
        assert(t.subrange(1, t.len() as int) =~= av.subrange(i + 1, av.len() as int));
        assert(att_wf(t[0]));
        assert(av[i as int] == v@[i as int]@);
    }
    let first = match &v[i] {
        AttributedTo::Object(o) => Json::Obj(o.to_fields()),
        AttributedTo::Link(l) => Json::Obj(l.to_fields()),
    };
    let mut rest = att_vec_to_json(v, i + 1);
    let ghost rest0 = rest@;
    rest.insert(0, first);
    proof {
        crate::json::lemma_arr_view(rest@);
        crate::json::lemma_arr_view(rest0);
        assert(crate::json::arr_view(rest@) =~= seq![att_json(t[0])] + crate::json::arr_view(
            rest0,
        ));
    }
    rest
}

/// Resolve the polymorphic entries of the array `a[i..]`.
fn att_vec_from_json(a: &Vec<Json>, i: usize) -> (r: Result<Vec<AttributedTo>, ParseError>)
    requires
        i <= a@.len(),
    ensures
        match r {
            Ok(v) => att_arr_from(crate::json::arr_view(a@).subrange(i as int, a@.len() as int))
                == Ok::<Seq<AttributedToV>, ParseError>(att_seq_view(v@)),
            Err(e) => att_arr_from(crate::json::arr_view(a@).subrange(i as int, a@.len() as int))
                == Err::<Seq<AttributedToV>, ParseError>(e),
        },
    decreases a, a@.len() - i,
{
    proof {
        crate::json::lemma_arr_view(a@);
    }
    let ghost av = crate::json::arr_view(a@);
    let ghost t = av.subrange(i as int, av.len() as int);
    if i >= a.len() {
        let v: Vec<AttributedTo> = Vec::new();
        proof {
            assert(t =~= Seq::<JsonV>::empty());
            lemma_att_seq_view(v@);
            assert(att_seq_view(v@) =~= Seq::<AttributedToV>::empty());
        }
        return Ok(v);
    }
    proof {
        assert(t[0] == av[i as int]);
        assert(t.subrange(1, t.len() as int) =~= av.subrange(i + 1, av.len() as int));
        assert(decreases_to!(*a => a@));
        assert(decreases_to!(a@ => a@[i as int]));
    }
    let first = match AttributedTo::from_json(&a[i]) {
        Ok(x) => x,
        Err(e) => {
            return Err(e);
        },
    };
    match att_vec_from_json(a, i + 1) {
        Ok(mut rest) => {
            let ghost rest0 = rest@;
            rest.insert(0, first);
            proof {
                lemma_att_seq_view(rest@);
                lemma_att_seq_view(rest0);
                assert(att_seq_view(rest@) =~= seq![first@] + att_seq_view(rest0));
            }
            Ok(rest)
        },
        Err(e) => Err(e),
    }
}

impl AttributedTo {
    /// Resolve one polymorphic value from its JSON form: an object with an
    /// `href` key is a link, one without is an object, anything else
    /// matches no variant.
    pub fn from_json(j: &Json) -> (r: Result<AttributedTo, ParseError>)
        ensures
            match r {
                Ok(x) => att_from(j@) == Ok::<AttributedToV, ParseError>(x@),
                Err(e) => att_from(j@) == Err::<AttributedToV, ParseError>(e),
            },
        decreases j,
    {
        match j {
            Json::Obj(m2) => {
                proof {
                    assert(decreases_to!(*j => *m2));
                }
                match crate::fields::get(m2, "href") {
                    Some(_) => match Link::from_fields(m2) {
                        Ok(l) => Ok(AttributedTo::Link(l)),
                        Err(e) => Err(e),
                    },
                    None => match Object::from_fields(m2) {
                        Ok(o) => Ok(AttributedTo::Object(o)),
                        Err(e) => Err(e),
                    },
                }
            },
            _ => Err(ParseError::NoVariant),
        }
    }
}

impl Link {
    /// The flat wire members of this link.
    pub fn to_fields(&self) -> (r: Vec<(String, Json)>)
        ensures
            obj_view(r@) == link_fields(self@),
        decreases self,
    {
        let mut out: Vec<(String, Json)> = Vec::new();
        proof {
            crate::json::lemma_obj_view(out@);
            assert(obj_view(out@) =~= Seq::<(Seq<char>, JsonV)>::empty());
        }
        crate::fields::push_str_field(&mut out, "type", &self.link_type);
        crate::fields::push_field(&mut out, "href", Json::Str(self.href.clone()));
        proof {
            crate::fields::lemma_strs_view(self.rel@);
        }
        if self.rel.len() > 0 {
            let rj = crate::fields::strs_to_json(&self.rel);
            crate::fields::push_field(&mut out, "rel", Json::Arr(rj));
        }
        crate::fields::push_str_field(&mut out, "mediaType", &self.media_type);
        crate::fields::push_str_field(&mut out, "name", &self.name);
        crate::fields::push_str_field(&mut out, "hreflang", &self.hreflang);
        crate::fields::push_u32_field(&mut out, "height", &self.height);
        crate::fields::push_u32_field(&mut out, "width", &self.width);
        match &self.preview {
            Some(p) => {
                let pf = p.to_fields();
                crate::fields::push_field(&mut out, "preview", Json::Obj(pf));
            },
            None => {},
        }
        proof {
            assert(obj_view(out@) =~= link_fields(self@));
        }
        out
    }

    /// Read a link from flat wire members; `href` must be present.
    pub fn from_fields(m: &Vec<(String, Json)>) -> (r: Result<Link, ParseError>)
        ensures
            match r {
                Ok(l) => link_from(obj_view(m@)) == Ok::<LinkV, ParseError>(l@),
                Err(e) => link_from(obj_view(m@)) == Err::<LinkV, ParseError>(e),
            },
        decreases m, 1int,
    {
        let link_type = match crate::fields::get_str(m, "type") {
            Ok(o) => o,
            Err(e) => {
                return Err(e);
            },
        };
        let href = match crate::fields::get_req_str(m, "href") {
            Ok(s) => s,
            Err(e) => {
                return Err(e);
            },
        };
        let rel = match crate::fields::get_str_arr(m, "rel") {
            Ok(Some(v)) => v,
            Ok(None) => Vec::new(),
            Err(e) => {
                return Err(e);
            },
        };
        let media_type = match crate::fields::get_str(m, "mediaType") {
            Ok(o) => o,
            Err(e) => {
                return Err(e);
            },
        };
        let name = match crate::fields::get_str(m, "name") {
            Ok(o) => o,
            Err(e) => {
                return Err(e);
            },
        };
        let hreflang = match crate::fields::get_str(m, "hreflang") {
            Ok(o) => o,
            Err(e) => {
                return Err(e);
            },
        };
        let height = match crate::fields::get_u32(m, "height") {
            Ok(o) => o,
            Err(e) => {
                return Err(e);
            },
        };
        let width = match crate::fields::get_u32(m, "width") {
            Ok(o) => o,
            Err(e) => {
                return Err(e);
            },
        };
        let preview = match crate::fields::get(m, "preview") {
            None => None,
            Some(j) => match j {
                Json::Obj(m2) => {
                    proof {
                        dec_member(m, j, m2);
                    }
                    match Preview::from_fields(m2) {
                        Ok(p) => Some(p),
                        Err(e) => {
                            return Err(e);
                        },
                    }
                },
                _ => {
                    return Err(ParseError::Shape);
                },
            },
        };
        proof {
            if rel@.len() == 0 {
                crate::fields::lemma_strs_view(rel@);
                assert(crate::fields::strs_view(rel@) =~= Seq::<Seq<char>>::empty());
            }
        }
        Ok(Link { link_type, href, rel, media_type, name, hreflang, height, width, preview })
    }
}

impl Preview {
    /// The flat wire members of this preview.
    pub fn to_fields(&self) -> (r: Vec<(String, Json)>)
        ensures
            obj_view(r@) == preview_fields(self@),
        decreases self,
    {
        let mut out: Vec<(String, Json)> = Vec::new();
        proof {
            crate::json::lemma_obj_view(out@);
            assert(obj_view(out@) =~= Seq::<(Seq<char>, JsonV)>::empty());
        }
        crate::fields::push_str_field(&mut out, "type", &self.object_type);
        crate::fields::push_str_field(&mut out, "name", &self.name);
        crate::fields::push_str_field(&mut out, "duration", &self.duration);
        match &self.url {
            Some(b) => {
                let lf = (**b).to_fields();
                crate::fields::push_field(&mut out, "url", Json::Obj(lf));
            },
            None => {},
        }
        proof {
            assert(obj_view(out@) =~= preview_fields(self@));
        }
        out
    }

    /// Read a preview from flat wire members.
    pub fn from_fields(m: &Vec<(String, Json)>) -> (r: Result<Preview, ParseError>)
        ensures
            match r {
                Ok(p) => preview_from(obj_view(m@)) == Ok::<PreviewV, ParseError>(p@),
                Err(e) => preview_from(obj_view(m@)) == Err::<PreviewV, ParseError>(e),
            },
        decreases m, 1int,
    {
        let object_type = match crate::fields::get_str(m, "type") {
            Ok(o) => o,
            Err(e) => {
                return Err(e);
            },
        };
        let name = match crate::fields::get_str(m, "name") {
            Ok(o) => o,
            Err(e) => {
                return Err(e);
            },
        };
        let duration = match crate::fields::get_str(m, "duration") {
            Ok(o) => o,
            Err(e) => {
                return Err(e);
            },
        };
        let url = match crate::fields::get(m, "url") {
            None => None,
            Some(j) => match j {
                Json::Obj(m2) => {
                    proof {
                        dec_member(m, j, m2);
                    }
                    match Link::from_fields(m2) {
                        Ok(l) => Some(Box::new(l)),
                        Err(e) => {
                            return Err(e);
                        },
                    }
                },
                _ => {
                    return Err(ParseError::Shape);
                },
            },
        };
        Ok(Preview { object_type, name, duration, url })
    }
}

/// Read a preview from the members of a flat JSON object.
pub open spec fn preview_from(m: Seq<(Seq<char>, JsonV)>) -> Result<PreviewV, ParseError>
    decreases m, 1int,
{
    match f_str(m, "type"@) {
        Err(e) => Err(e),
        Ok(object_type) => match f_str(m, "name"@) {
            Err(e) => Err(e),
            Ok(name) => match f_str(m, "duration"@) {
                Err(e) => Err(e),
                Ok(duration) => match link_under(m, "url"@) {
                    Err(e) => Err(e),
                    Ok(url) => Ok(
                        PreviewV {
                            object_type,
                            name,
                            duration,
                            url: match url {
                                Some(l) => Some(Box::new(l)),
                                None => None,
                            },
                        },
                    ),
                },
            },
        },
    }
}

/// What lookup finds in an object's wire members, for every key: each
/// declared key maps to its field's contribution, every other key to
/// nothing.
#[verifier::rlimit(100)]
pub proof fn lemma_obj_lookup(v: ObjectV, k: Seq<char>)
    ensures
        lookup(obj_fields(v), k) == if k == "type"@ {
            crate::fields::os_val(v.object_type)
        } else if k == "id"@ {
            crate::fields::os_val(v.id)
        } else if k == "name"@ {
            crate::fields::os_val(v.name)
        } else if k == "url"@ {
            crate::fields::os_val(v.url)
        } else if k == "published"@ {
            crate::fields::ots_val(v.published)
        } else if k == "image"@ {
            match v.image {
                Some(l) => Some(JsonV::Obj(link_fields(l))),
                None => None,
            }
        } else if k == "attributedTo"@ {
            if v.attributed_to.len() == 0 {
                None
            } else {
                Some(JsonV::Arr(att_seq_json(v.attributed_to)))
            }
        } else if k == "audience"@ {
            match v.audience {
                Some(b) => Some(JsonV::Obj(obj_fields(*b))),
                None => None,
            }
        } else if k == "content"@ {
            crate::fields::os_val(v.content)
        } else if k == "summary"@ {
            crate::fields::os_val(v.summary)
        } else if k == "duration"@ {
            crate::fields::os_val(v.duration)
        } else if k == "preview"@ {
            match v.preview {
                Some(b) => Some(JsonV::Obj(preview_fields(*b))),
                None => None,
            }
        } else {
            None::<JsonV>
        },
{
    crate::fields::lemma_keys();
    let s1 = put_str("type"@, v.object_type);
    let s2 = put_str("id"@, v.id);
    let s3 = put_str("name"@, v.name);
    let s4 = put_str("url"@, v.url);
    let s5 = put_ts("published"@, v.published);
    let s6 = match v.image {
        Some(l) => seq![("image"@, JsonV::Obj(link_fields(l)))],
        None => Seq::<(Seq<char>, JsonV)>::empty(),
    };
    let s7 = if v.attributed_to.len() == 0 {
        Seq::<(Seq<char>, JsonV)>::empty()
    } else {
        seq![("attributedTo"@, JsonV::Arr(att_seq_json(v.attributed_to)))]
    };
    let s8 = match v.audience {
        Some(b) => seq![("audience"@, JsonV::Obj(obj_fields(*b)))],
        None => Seq::<(Seq<char>, JsonV)>::empty(),
    };
    let s9 = put_str("content"@, v.content);
    let s10 = put_str("summary"@, v.summary);
    let s11 = put_str("duration"@, v.duration);
    let s12 = match v.preview {
        Some(b) => seq![("preview"@, JsonV::Obj(preview_fields(*b)))],
        None => Seq::<(Seq<char>, JsonV)>::empty(),
    };
    assert(obj_fields(v) == s1 + s2 + s3 + s4 + s5 + s6 + s7 + s8 + s9 + s10 + s11 + s12);
    crate::fields::lemma_lookup_put_str("type"@, v.object_type, k);
    crate::fields::lemma_lookup_put_str("id"@, v.id, k);
    crate::fields::lemma_lookup_put_str("name"@, v.name, k);
    crate::fields::lemma_lookup_put_str("url"@, v.url, k);
    crate::fields::lemma_lookup_put_ts("published"@, v.published, k);
    match v.image {
        Some(l) => crate::fields::lemma_lookup_one("image"@, JsonV::Obj(link_fields(l)), k),
        None => {},
    }
    if v.attributed_to.len() > 0 {
        crate::fields::lemma_lookup_one(
            "attributedTo"@,
            JsonV::Arr(att_seq_json(v.attributed_to)),
            k,
        );
    }
    match v.audience {
        Some(b) => crate::fields::lemma_lookup_one("audience"@, JsonV::Obj(obj_fields(*b)), k),
        None => {},
    }
    crate::fields::lemma_lookup_put_str("content"@, v.content, k);
    crate::fields::lemma_lookup_put_str("summary"@, v.summary, k);
    crate::fields::lemma_lookup_put_str("duration"@, v.duration, k);
    match v.preview {
        Some(b) => crate::fields::lemma_lookup_one("preview"@, JsonV::Obj(preview_fields(*b)), k),
        None => {},
    }
    crate::fields::lemma_lookup_append(s1, s2, k);
    crate::fields::lemma_lookup_append(s1 + s2, s3, k);
    crate::fields::lemma_lookup_append(s1 + s2 + s3, s4, k);
    crate::fields::lemma_lookup_append(s1 + s2 + s3 + s4, s5, k);
    crate::fields::lemma_lookup_append(s1 + s2 + s3 + s4 + s5, s6, k);
    crate::fields::lemma_lookup_append(s1 + s2 + s3 + s4 + s5 + s6, s7, k);
    crate::fields::lemma_lookup_append(s1 + s2 + s3 + s4 + s5 + s6 + s7, s8, k);
    crate::fields::lemma_lookup_append(s1 + s2 + s3 + s4 + s5 + s6 + s7 + s8, s9, k);
    crate::fields::lemma_lookup_append(s1 + s2 + s3 + s4 + s5 + s6 + s7 + s8 + s9, s10, k);
    crate::fields::lemma_lookup_append(s1 + s2 + s3 + s4 + s5 + s6 + s7 + s8 + s9 + s10, s11, k);
    crate::fields::lemma_lookup_append(
        s1 + s2 + s3 + s4 + s5 + s6 + s7 + s8 + s9 + s10 + s11,
        s12,
        k,
    );
}

/// What lookup finds in a link's wire members, for every key.
#[verifier::rlimit(100)]
pub proof fn lemma_link_lookup(v: LinkV, k: Seq<char>)
    ensures
        lookup(link_fields(v), k) == if k == "type"@ {
            crate::fields::os_val(v.link_type)
        } else if k == "href"@ {
            Some(JsonV::Str(v.href))
        } else if k == "rel"@ {
            if v.rel.len() == 0 {
                None
            } else {
                Some(JsonV::Arr(strs_json(v.rel)))
            }
        } else if k == "mediaType"@ {
            crate::fields::os_val(v.media_type)
        } else if k == "name"@ {
            crate::fields::os_val(v.name)
        } else if k == "hreflang"@ {
            crate::fields::os_val(v.hreflang)
        } else if k == "height"@ {
            crate::fields::ou32_val(v.height)
        } else if k == "width"@ {
            crate::fields::ou32_val(v.width)
        } else if k == "preview"@ {
            match v.preview {
                Some(p) => Some(JsonV::Obj(preview_fields(p))),
                None => None,
            }
        } else {
            None::<JsonV>
        },
{
    crate::fields::lemma_keys();
    let s1 = put_str("type"@, v.link_type);
    let s2 = seq![("href"@, JsonV::Str(v.href))];
    let s3 = if v.rel.len() == 0 {
        Seq::<(Seq<char>, JsonV)>::empty()
    } else {
        seq![("rel"@, JsonV::Arr(strs_json(v.rel)))]
    };
    let s4 = put_str("mediaType"@, v.media_type);
    let s5 = put_str("name"@, v.name);
    let s6 = put_str("hreflang"@, v.hreflang);
    let s7 = put_u32("height"@, v.height);
    let s8 = put_u32("width"@, v.width);
    let s9 = match v.preview {
        Some(p) => seq![("preview"@, JsonV::Obj(preview_fields(p)))],
        None => Seq::<(Seq<char>, JsonV)>::empty(),
    };
    assert(link_fields(v) == s1 + s2 + s3 + s4 + s5 + s6 + s7 + s8 + s9);
    crate::fields::lemma_lookup_put_str("type"@, v.link_type, k);
    crate::fields::lemma_lookup_one("href"@, JsonV::Str(v.href), k);
    if v.rel.len() > 0 {
        crate::fields::lemma_lookup_one("rel"@, JsonV::Arr(strs_json(v.rel)), k);
    }
    crate::fields::lemma_lookup_put_str("mediaType"@, v.media_type, k);
    crate::fields::lemma_lookup_put_str("name"@, v.name, k);
    crate::fields::lemma_lookup_put_str("hreflang"@, v.hreflang, k);
    crate::fields::lemma_lookup_put_u32("height"@, v.height, k);
    crate::fields::lemma_lookup_put_u32("width"@, v.width, k);
    match v.preview {
        Some(p) => crate::fields::lemma_lookup_one("preview"@, JsonV::Obj(preview_fields(p)), k),
        None => {},
    }
    crate::fields::lemma_lookup_append(s1, s2, k);
    crate::fields::lemma_lookup_append(s1 + s2, s3, k);
    crate::fields::lemma_lookup_append(s1 + s2 + s3, s4, k);
    crate::fields::lemma_lookup_append(s1 + s2 + s3 + s4, s5, k);
    crate::fields::lemma_lookup_append(s1 + s2 + s3 + s4 + s5, s6, k);
    crate::fields::lemma_lookup_append(s1 + s2 + s3 + s4 + s5 + s6, s7, k);
    crate::fields::lemma_lookup_append(s1 + s2 + s3 + s4 + s5 + s6 + s7, s8, k);
    crate::fields::lemma_lookup_append(s1 + s2 + s3 + s4 + s5 + s6 + s7 + s8, s9, k);
}

/// What lookup finds in a preview's wire members, for every key.
#[verifier::rlimit(100)]
pub proof fn lemma_preview_lookup(v: PreviewV, k: Seq<char>)
    ensures
        lookup(preview_fields(v), k) == if k == "type"@ {
            crate::fields::os_val(v.object_type)
        } else if k == "name"@ {
            crate::fields::os_val(v.name)
        } else if k == "duration"@ {
            crate::fields::os_val(v.duration)
        } else if k == "url"@ {
            match v.url {
                Some(b) => Some(JsonV::Obj(link_fields(*b))),
                None => None,
            }
        } else {
            None::<JsonV>
        },
{
    crate::fields::lemma_keys();
    let s1 = put_str("type"@, v.object_type);
    let s2 = put_str("name"@, v.name);
    let s3 = put_str("duration"@, v.duration);
    let s4 = match v.url {
        Some(b) => seq![("url"@, JsonV::Obj(link_fields(*b)))],
        None => Seq::<(Seq<char>, JsonV)>::empty(),
    };
    assert(preview_fields(v) == s1 + s2 + s3 + s4);
    crate::fields::lemma_lookup_put_str("type"@, v.object_type, k);
    crate::fields::lemma_lookup_put_str("name"@, v.name, k);
    crate::fields::lemma_lookup_put_str("duration"@, v.duration, k);
    match v.url {
        Some(b) => crate::fields::lemma_lookup_one("url"@, JsonV::Obj(link_fields(*b)), k),
        None => {},
    }
    crate::fields::lemma_lookup_append(s1, s2, k);
    crate::fields::lemma_lookup_append(s1 + s2, s3, k);
    crate::fields::lemma_lookup_append(s1 + s2 + s3, s4, k);
}

/// Round trip: reading back an object's own wire members yields the same
/// object.
#[verifier::rlimit(100)]
pub proof fn lemma_obj_rt(v: ObjectV)
    requires
        obj_wf(v),
    ensures
        obj_from(obj_fields(v)) == Ok::<ObjectV, ParseError>(v),
    decreases v, 1int,
{
    let m = obj_fields(v);
    crate::fields::lemma_keys();
    lemma_obj_lookup(v, "type"@);
    lemma_obj_lookup(v, "id"@);
    lemma_obj_lookup(v, "name"@);
    lemma_obj_lookup(v, "url"@);
    lemma_obj_lookup(v, "published"@);
    lemma_obj_lookup(v, "image"@);
    lemma_obj_lookup(v, "attributedTo"@);
    lemma_obj_lookup(v, "audience"@);
    lemma_obj_lookup(v, "content"@);
    lemma_obj_lookup(v, "summary"@);
    lemma_obj_lookup(v, "duration"@);
    lemma_obj_lookup(v, "preview"@);
    match v.published {
        Some(t) => crate::timestamp::lemma_ts_roundtrip(t),
        None => {},
    }
    match v.image {
        Some(l) => lemma_link_rt(l),
        None => {},
    }
    if v.attributed_to.len() > 0 {
        lemma_att_arr_rt(v.attributed_to);
    } else {
        assert(v.attributed_to =~= Seq::<AttributedToV>::empty());
    }
    match v.audience {
        Some(b) => {
            lemma_obj_rt(*b);
        },
        None => {},
    }
    match v.preview {
        Some(b) => lemma_preview_rt(*b),
        None => {},
    }
}

/// Round trip: reading back a link's own wire members yields the same
/// link.
#[verifier::rlimit(100)]
pub proof fn lemma_link_rt(v: LinkV)
    ensures
        link_from(link_fields(v)) == Ok::<LinkV, ParseError>(v),
    decreases v, 1int,
{
    let m = link_fields(v);
    crate::fields::lemma_keys();
    lemma_link_lookup(v, "type"@);
    lemma_link_lookup(v, "href"@);
    lemma_link_lookup(v, "rel"@);
    lemma_link_lookup(v, "mediaType"@);
    lemma_link_lookup(v, "name"@);
    lemma_link_lookup(v, "hreflang"@);
    lemma_link_lookup(v, "height"@);
    lemma_link_lookup(v, "width"@);
    lemma_link_lookup(v, "preview"@);
    if v.rel.len() > 0 {
        crate::fields::lemma_strs_rt(v.rel);
    } else {
        assert(v.rel =~= Seq::<Seq<char>>::empty());
    }
    match v.height {
        Some(n) => {
            crate::num::lemma_dec_digits(n as nat);
        },
        None => {},
    }
    match v.width {
        Some(n) => {
            crate::num::lemma_dec_digits(n as nat);
        },
        None => {},
    }
    match v.preview {
        Some(p) => lemma_preview_rt(p),
        None => {},
    }
}

/// Round trip: reading back a preview's own wire members yields the same
/// preview.
pub proof fn lemma_preview_rt(v: PreviewV)
    ensures
        preview_from(preview_fields(v)) == Ok::<PreviewV, ParseError>(v),
    decreases v, 1int,
{
    crate::fields::lemma_keys();
    lemma_preview_lookup(v, "type"@);
    lemma_preview_lookup(v, "name"@);
    lemma_preview_lookup(v, "duration"@);
    lemma_preview_lookup(v, "url"@);
    match v.url {
        Some(b) => lemma_link_rt(*b),
        None => {},
    }
}

/// Round trip for one polymorphic value: a serialized link carries `href`
/// and resolves as a link; a serialized object carries none and resolves
/// as an object.
pub proof fn lemma_att_rt(a: AttributedToV)
    requires
        att_wf(a),
    ensures
        att_from(att_json(a)) == Ok::<AttributedToV, ParseError>(a),
    decreases a, 2int,
{
    crate::fields::lemma_keys();
    crate::fields::lemma_keys();
    match a {
        AttributedToV::Object(o) => {
            lemma_obj_lookup(o, "href"@);
            lemma_obj_rt(o);
        },
        AttributedToV::Link(l) => {
            lemma_link_lookup(l, "href"@);
            lemma_link_rt(l);
        },
    }
}

/// Omission: a field left unset contributes no member at all to the wire
/// form, and an empty attribution sequence likewise; nothing is ever
/// rendered as a null placeholder.
pub proof fn lemma_omission(v: ObjectV)
    ensures
        v.object_type is None ==> lookup(obj_fields(v), "type"@) is None,
        v.id is None ==> lookup(obj_fields(v), "id"@) is None,
        v.name is None ==> lookup(obj_fields(v), "name"@) is None,
        v.url is None ==> lookup(obj_fields(v), "url"@) is None,
        v.published is None ==> lookup(obj_fields(v), "published"@) is None,
        v.image is None ==> lookup(obj_fields(v), "image"@) is None,
        v.attributed_to.len() == 0 ==> lookup(obj_fields(v), "attributedTo"@) is None,
        v.audience is None ==> lookup(obj_fields(v), "audience"@) is None,
        v.content is None ==> lookup(obj_fields(v), "content"@) is None,
        v.summary is None ==> lookup(obj_fields(v), "summary"@) is None,
        v.duration is None ==> lookup(obj_fields(v), "duration"@) is None,
        v.preview is None ==> lookup(obj_fields(v), "preview"@) is None,
{
    crate::fields::lemma_keys();
    lemma_obj_lookup(v, "type"@);
    lemma_obj_lookup(v, "id"@);
    lemma_obj_lookup(v, "name"@);
    lemma_obj_lookup(v, "url"@);
    lemma_obj_lookup(v, "published"@);
    lemma_obj_lookup(v, "image"@);
    lemma_obj_lookup(v, "attributedTo"@);
    lemma_obj_lookup(v, "audience"@);
    lemma_obj_lookup(v, "content"@);
    lemma_obj_lookup(v, "summary"@);
    lemma_obj_lookup(v, "duration"@);
    lemma_obj_lookup(v, "preview"@);
}

/// Flattening tolerance: appending members under keys an object does not
/// declare leaves its parse unchanged. This is what lets a derived entity
/// share one flat JSON object with its embedded base.
pub proof fn lemma_obj_from_extended(base: Seq<(Seq<char>, JsonV)>, extra: Seq<(Seq<char>, JsonV)>)
    requires
        lookup(extra, "type"@) is None,
        lookup(extra, "id"@) is None,
        lookup(extra, "name"@) is None,
        lookup(extra, "url"@) is None,
        lookup(extra, "published"@) is None,
        lookup(extra, "image"@) is None,
        lookup(extra, "attributedTo"@) is None,
        lookup(extra, "audience"@) is None,
        lookup(extra, "content"@) is None,
        lookup(extra, "summary"@) is None,
        lookup(extra, "duration"@) is None,
        lookup(extra, "preview"@) is None,
    ensures
        obj_from(base + extra) == obj_from(base),
{
    let m = base + extra;
    crate::fields::lemma_lookup_append(base, extra, "type"@);
    crate::fields::lemma_lookup_append(base, extra, "id"@);
    crate::fields::lemma_lookup_append(base, extra, "name"@);
    crate::fields::lemma_lookup_append(base, extra, "url"@);
    crate::fields::lemma_lookup_append(base, extra, "published"@);
    crate::fields::lemma_lookup_append(base, extra, "image"@);
    crate::fields::lemma_lookup_append(base, extra, "attributedTo"@);
    crate::fields::lemma_lookup_append(base, extra, "audience"@);
    crate::fields::lemma_lookup_append(base, extra, "content"@);
    crate::fields::lemma_lookup_append(base, extra, "summary"@);
    crate::fields::lemma_lookup_append(base, extra, "duration"@);
    crate::fields::lemma_lookup_append(base, extra, "preview"@);
    assert(f_str(m, "type"@) == f_str(base, "type"@));
    assert(f_str(m, "id"@) == f_str(base, "id"@));
    assert(f_str(m, "name"@) == f_str(base, "name"@));
    assert(f_str(m, "url"@) == f_str(base, "url"@));
    assert(f_ts(m, "published"@) == f_ts(base, "published"@));
    assert(link_under(m, "image"@) == link_under(base, "image"@));
    assert(att_under(m) == att_under(base));
    assert(obj_under(m, "audience"@) == obj_under(base, "audience"@));
    assert(f_str(m, "content"@) == f_str(base, "content"@));
    assert(f_str(m, "summary"@) == f_str(base, "summary"@));
    assert(f_str(m, "duration"@) == f_str(base, "duration"@));
    assert(preview_under(m, "preview"@) == preview_under(base, "preview"@));
}

/// Round trip for a sequence of polymorphic values.
pub proof fn lemma_att_arr_rt(s: Seq<AttributedToV>)
    requires
        att_seq_wf(s),
    ensures
        att_arr_from(att_seq_json(s)) == Ok::<Seq<AttributedToV>, ParseError>(s),
    decreases s, 3int,
{
    if s.len() == 0 {
        assert(att_seq_json(s) =~= Seq::<JsonV>::empty());
        assert(s =~= Seq::<AttributedToV>::empty());
    } else {
        let t = s.subrange(1, s.len() as int);
        let w = att_seq_json(s);
        assert(w == seq![att_json(s[0])] + att_seq_json(t));
        assert(w[0] == att_json(s[0]));
        assert(w.subrange(1, w.len() as int) =~= att_seq_json(t));
        lemma_att_rt(s[0]);
        lemma_att_arr_rt(t);
        assert(seq![s[0]] + t =~= s);
    }
}


/// Two member lists that agree on every key an object reads parse to the
/// same object.
pub proof fn lemma_obj_from_equiv(m1: Seq<(Seq<char>, JsonV)>, m2: Seq<(Seq<char>, JsonV)>)
    requires
        lookup(m1, "type"@) == lookup(m2, "type"@),
        lookup(m1, "id"@) == lookup(m2, "id"@),
        lookup(m1, "name"@) == lookup(m2, "name"@),
        lookup(m1, "url"@) == lookup(m2, "url"@),
        lookup(m1, "published"@) == lookup(m2, "published"@),
        lookup(m1, "image"@) == lookup(m2, "image"@),
        lookup(m1, "attributedTo"@) == lookup(m2, "attributedTo"@),
        lookup(m1, "audience"@) == lookup(m2, "audience"@),
        lookup(m1, "content"@) == lookup(m2, "content"@),
        lookup(m1, "summary"@) == lookup(m2, "summary"@),
        lookup(m1, "duration"@) == lookup(m2, "duration"@),
        lookup(m1, "preview"@) == lookup(m2, "preview"@),
    ensures
        obj_from(m1) == obj_from(m2),
{
    assert(f_str(m1, "type"@) == f_str(m2, "type"@));
    assert(f_str(m1, "id"@) == f_str(m2, "id"@));
    assert(f_str(m1, "name"@) == f_str(m2, "name"@));
    assert(f_str(m1, "url"@) == f_str(m2, "url"@));
    assert(f_ts(m1, "published"@) == f_ts(m2, "published"@));
    assert(link_under(m1, "image"@) == link_under(m2, "image"@));
    assert(att_under(m1) == att_under(m2));
    assert(obj_under(m1, "audience"@) == obj_under(m2, "audience"@));
    assert(f_str(m1, "content"@) == f_str(m2, "content"@));
    assert(f_str(m1, "summary"@) == f_str(m2, "summary"@));
    assert(f_str(m1, "duration"@) == f_str(m2, "duration"@));
    assert(preview_under(m1, "preview"@) == preview_under(m2, "preview"@));
}

/// Two member lists that agree on every key a link reads parse to the
/// same link.
pub proof fn lemma_link_from_equiv(m1: Seq<(Seq<char>, JsonV)>, m2: Seq<(Seq<char>, JsonV)>)
    requires
        lookup(m1, "type"@) == lookup(m2, "type"@),
        lookup(m1, "href"@) == lookup(m2, "href"@),
        lookup(m1, "rel"@) == lookup(m2, "rel"@),
        lookup(m1, "mediaType"@) == lookup(m2, "mediaType"@),
        lookup(m1, "name"@) == lookup(m2, "name"@),
        lookup(m1, "hreflang"@) == lookup(m2, "hreflang"@),
        lookup(m1, "height"@) == lookup(m2, "height"@),
        lookup(m1, "width"@) == lookup(m2, "width"@),
        lookup(m1, "preview"@) == lookup(m2, "preview"@),
    ensures
        link_from(m1) == link_from(m2),
{
    assert(f_str(m1, "type"@) == f_str(m2, "type"@));
    assert(f_req_str(m1, "href"@) == f_req_str(m2, "href"@));
    assert(f_str_arr(m1, "rel"@) == f_str_arr(m2, "rel"@));
    assert(f_str(m1, "mediaType"@) == f_str(m2, "mediaType"@));
    assert(f_str(m1, "name"@) == f_str(m2, "name"@));
    assert(f_str(m1, "hreflang"@) == f_str(m2, "hreflang"@));
    assert(f_u32(m1, "height"@) == f_u32(m2, "height"@));
    assert(f_u32(m1, "width"@) == f_u32(m2, "width"@));
    assert(preview_under(m1, "preview"@) == preview_under(m2, "preview"@));
}

} // verus!
