//! Serialization entry points: one set of `serialize`, `serialize_pretty`
//! and `deserialize_string` per payload entity, each specified against the
//! wire tree it emits or accepts, with the parse/serialize round-trip law
//! proved for every payload.
use vstd::prelude::*;
use crate::ParseError;
use crate::json::{Json, JsonV, obj_view};
use crate::render::{jr, jrp};
use crate::parse::sp_json;
use crate::model::context_doc::{
    Context, ContextV, Document, DocumentV, doc_members, doc_ctx_from, doc_to_json, doc_parse,
    lemma_doc_members_wf, lemma_doc_ctx_rt,
};

verus! {

broadcast use vstd::seq::group_seq_axioms, vstd::std_specs::vec::group_vec_axioms, vstd::string::group_string_axioms;

/// The wire tree of a document holding this payload.
pub open spec fn doc_object_json(d: DocumentV<crate::model::object::ObjectV>) -> JsonV {
    JsonV::Obj(doc_members(d.context, crate::model::object::obj_fields(d.object)))
}

/// What parsing a text as a document of this payload yields.
pub open spec fn doc_object_from(s: Seq<char>) -> Result<DocumentV<crate::model::object::ObjectV>, ParseError> {
    match sp_json(s) {
        None => Err(ParseError::Syntax),
        Some(j) => match j {
            JsonV::Obj(m) => match doc_ctx_from(m) {
                Err(e) => Err(e),
                Ok(c) => match crate::model::object::obj_from(m) {
                    Err(e) => Err(e),
                    Ok(o) => Ok(DocumentV { context: c, object: o }),
                },
            },
            _ => Err(ParseError::Shape),
        },
    }
}

impl Document<crate::model::object::Object> {
    /// Render this document as compact JSON text.
    pub fn serialize(&self) -> (r: String)
        requires
            crate::model::object::obj_wf(self@.object),
        ensures
            r@ == jr(doc_object_json(self@)),
    {
        let payload = self.object.to_fields();
        let j = doc_to_json(&self.context, payload);
        crate::render::render_json(&j)
    }

    /// Render this document as indented JSON text.
    pub fn serialize_pretty(&self) -> (r: String)
        requires
            crate::model::object::obj_wf(self@.object),
        ensures
            r@ == jrp(doc_object_json(self@), 0),
    {
        let payload = self.object.to_fields();
        let j = doc_to_json(&self.context, payload);
        crate::render::render_json_pretty(&j)
    }

    /// Parse JSON text as a document of this payload.
    pub fn deserialize_string(json: String) -> (r: Result<Document<crate::model::object::Object>, ParseError>)
        ensures
            match r {
                Ok(d) => doc_object_from(json@) == Ok::<DocumentV<crate::model::object::ObjectV>, ParseError>(d@),
                Err(e) => doc_object_from(json@) == Err::<DocumentV<crate::model::object::ObjectV>, ParseError>(e),
            },
    {
        let (context, m) = match doc_parse(json.as_str()) {
            Ok(x) => x,
            Err(e) => {
                return Err(e);
            },
        };
        match crate::model::object::Object::from_fields(&m) {
            Ok(o) => Ok(Document { context, object: o }),
            Err(e) => Err(e),
        }
    }
}

/// Round trip: parsing the serialized form of a document with this
/// payload yields an equal document, for every populated or absent field.
pub proof fn lemma_document_object_roundtrip(d: DocumentV<crate::model::object::ObjectV>)
    requires
        crate::model::object::obj_wf(d.object),
    ensures
        doc_object_from(jr(doc_object_json(d))) == Ok::<DocumentV<crate::model::object::ObjectV>, ParseError>(d),
{
    crate::fields::lemma_keys();
    let payload = crate::model::object::obj_fields(d.object);
    let dm = doc_members(d.context, payload);
    crate::model::wf::lemma_obj_fields_wf(d.object);
    lemma_doc_members_wf(d.context, payload);
    crate::roundtrip::lemma_parse_render(JsonV::Obj(dm));
    lemma_doc_ctx_rt(d.context, payload);
    crate::model::object::lemma_obj_from_equiv(dm, payload);
    crate::model::object::lemma_obj_rt(d.object);
}

/// The wire tree of a document holding this payload.
pub open spec fn doc_link_json(d: DocumentV<crate::model::object::LinkV>) -> JsonV {
    JsonV::Obj(doc_members(d.context, crate::model::object::link_fields(d.object)))
}

/// What parsing a text as a document of this payload yields.
pub open spec fn doc_link_from(s: Seq<char>) -> Result<DocumentV<crate::model::object::LinkV>, ParseError> {
    match sp_json(s) {
        None => Err(ParseError::Syntax),
        Some(j) => match j {
            JsonV::Obj(m) => match doc_ctx_from(m) {
                Err(e) => Err(e),
                Ok(c) => match crate::model::object::link_from(m) {
                    Err(e) => Err(e),
                    Ok(o) => Ok(DocumentV { context: c, object: o }),
                },
            },
            _ => Err(ParseError::Shape),
        },
    }
}

impl Document<crate::model::object::Link> {
    /// Render this document as compact JSON text.
    pub fn serialize(&self) -> (r: String)
        ensures
            r@ == jr(doc_link_json(self@)),
    {
        let payload = self.object.to_fields();
        let j = doc_to_json(&self.context, payload);
        crate::render::render_json(&j)
    }

    /// Render this document as indented JSON text.
    pub fn serialize_pretty(&self) -> (r: String)
        ensures
            r@ == jrp(doc_link_json(self@), 0),
    {
        let payload = self.object.to_fields();
        let j = doc_to_json(&self.context, payload);
        crate::render::render_json_pretty(&j)
    }

    /// Parse JSON text as a document of this payload.
    pub fn deserialize_string(json: String) -> (r: Result<Document<crate::model::object::Link>, ParseError>)
        ensures
            match r {
                Ok(d) => doc_link_from(json@) == Ok::<DocumentV<crate::model::object::LinkV>, ParseError>(d@),
                Err(e) => doc_link_from(json@) == Err::<DocumentV<crate::model::object::LinkV>, ParseError>(e),
            },
    {
        let (context, m) = match doc_parse(json.as_str()) {
            Ok(x) => x,
            Err(e) => {
                return Err(e);
            },
        };
        match crate::model::object::Link::from_fields(&m) {
            Ok(o) => Ok(Document { context, object: o }),
            Err(e) => Err(e),
        }
    }
}

/// Round trip: parsing the serialized form of a document with this
/// payload yields an equal document, for every populated or absent field.
pub proof fn lemma_document_link_roundtrip(d: DocumentV<crate::model::object::LinkV>)
    ensures
        doc_link_from(jr(doc_link_json(d))) == Ok::<DocumentV<crate::model::object::LinkV>, ParseError>(d),
{
    crate::fields::lemma_keys();
    let payload = crate::model::object::link_fields(d.object);
    let dm = doc_members(d.context, payload);
    crate::model::wf::lemma_link_fields_wf(d.object);
    lemma_doc_members_wf(d.context, payload);
    crate::roundtrip::lemma_parse_render(JsonV::Obj(dm));
    lemma_doc_ctx_rt(d.context, payload);
    crate::model::object::lemma_link_from_equiv(dm, payload);
    crate::model::object::lemma_link_rt(d.object);
}

/// The wire tree of a document holding this payload.
pub open spec fn doc_activity_json(d: DocumentV<crate::model::activity::ActivityV>) -> JsonV {
    JsonV::Obj(doc_members(d.context, crate::model::activity::activity_fields(d.object)))
}

/// What parsing a text as a document of this payload yields.
pub open spec fn doc_activity_from(s: Seq<char>) -> Result<DocumentV<crate::model::activity::ActivityV>, ParseError> {
    match sp_json(s) {
        None => Err(ParseError::Syntax),
        Some(j) => match j {
            JsonV::Obj(m) => match doc_ctx_from(m) {
                Err(e) => Err(e),
                Ok(c) => match crate::model::activity::activity_from(m) {
                    Err(e) => Err(e),
                    Ok(o) => Ok(DocumentV { context: c, object: o }),
                },
            },
            _ => Err(ParseError::Shape),
        },
    }
}

impl Document<crate::model::activity::Activity> {
    /// Render this document as compact JSON text.
    pub fn serialize(&self) -> (r: String)
        requires
            crate::model::activity::activity_wf(self@.object),
        ensures
            r@ == jr(doc_activity_json(self@)),
    {
        let payload = self.object.to_fields();
        let j = doc_to_json(&self.context, payload);
        crate::render::render_json(&j)
    }

    /// Render this document as indented JSON text.
    pub fn serialize_pretty(&self) -> (r: String)
        requires
            crate::model::activity::activity_wf(self@.object),
        ensures
            r@ == jrp(doc_activity_json(self@), 0),
    {
        let payload = self.object.to_fields();
        let j = doc_to_json(&self.context, payload);
        crate::render::render_json_pretty(&j)
    }

    /// Parse JSON text as a document of this payload.
    pub fn deserialize_string(json: String) -> (r: Result<Document<crate::model::activity::Activity>, ParseError>)
        ensures
            match r {
                Ok(d) => doc_activity_from(json@) == Ok::<DocumentV<crate::model::activity::ActivityV>, ParseError>(d@),
                Err(e) => doc_activity_from(json@) == Err::<DocumentV<crate::model::activity::ActivityV>, ParseError>(e),
            },
    {
        let (context, m) = match doc_parse(json.as_str()) {
            Ok(x) => x,
            Err(e) => {
                return Err(e);
            },
        };
        match crate::model::activity::Activity::from_fields(&m) {
            Ok(o) => Ok(Document { context, object: o }),
            Err(e) => Err(e),
        }
    }
}

/// Round trip: parsing the serialized form of a document with this
/// payload yields an equal document, for every populated or absent field.
pub proof fn lemma_document_activity_roundtrip(d: DocumentV<crate::model::activity::ActivityV>)
    requires
        crate::model::activity::activity_wf(d.object),
    ensures
        doc_activity_from(jr(doc_activity_json(d))) == Ok::<DocumentV<crate::model::activity::ActivityV>, ParseError>(d),
{
    crate::fields::lemma_keys();
    let payload = crate::model::activity::activity_fields(d.object);
    let dm = doc_members(d.context, payload);
    crate::model::wf::lemma_activity_fields_wf(d.object);
    lemma_doc_members_wf(d.context, payload);
    crate::roundtrip::lemma_parse_render(JsonV::Obj(dm));
    lemma_doc_ctx_rt(d.context, payload);
    crate::model::activity::lemma_activity_from_equiv(dm, payload);
    crate::model::activity::lemma_activity_rt(d.object);
}

/// The wire tree of a document holding this payload.
pub open spec fn doc_actor_json(d: DocumentV<crate::model::actor::ActorV>) -> JsonV {
    JsonV::Obj(doc_members(d.context, crate::model::actor::actor_fields(d.object)))
}

/// What parsing a text as a document of this payload yields.
pub open spec fn doc_actor_from(s: Seq<char>) -> Result<DocumentV<crate::model::actor::ActorV>, ParseError> {
    match sp_json(s) {
        None => Err(ParseError::Syntax),
        Some(j) => match j {
            JsonV::Obj(m) => match doc_ctx_from(m) {
                Err(e) => Err(e),
                Ok(c) => match crate::model::actor::actor_from(m) {
                    Err(e) => Err(e),
                    Ok(o) => Ok(DocumentV { context: c, object: o }),
                },
            },
            _ => Err(ParseError::Shape),
        },
    }
}

impl Document<crate::model::actor::Actor> {
    /// Render this document as compact JSON text.
    pub fn serialize(&self) -> (r: String)
        requires
            crate::model::actor::actor_wf(self@.object),
        ensures
            r@ == jr(doc_actor_json(self@)),
    {
        let payload = self.object.to_fields();
        let j = doc_to_json(&self.context, payload);
        crate::render::render_json(&j)
    }

    /// Render this document as indented JSON text.
    pub fn serialize_pretty(&self) -> (r: String)
        requires
            crate::model::actor::actor_wf(self@.object),
        ensures
            r@ == jrp(doc_actor_json(self@), 0),
    {
        let payload = self.object.to_fields();
        let j = doc_to_json(&self.context, payload);
        crate::render::render_json_pretty(&j)
    }

    /// Parse JSON text as a document of this payload.
    pub fn deserialize_string(json: String) -> (r: Result<Document<crate::model::actor::Actor>, ParseError>)
        ensures
            match r {
                Ok(d) => doc_actor_from(json@) == Ok::<DocumentV<crate::model::actor::ActorV>, ParseError>(d@),
                Err(e) => doc_actor_from(json@) == Err::<DocumentV<crate::model::actor::ActorV>, ParseError>(e),
            },
    {
        let (context, m) = match doc_parse(json.as_str()) {
            Ok(x) => x,
            Err(e) => {
                return Err(e);
            },
        };
        match crate::model::actor::Actor::from_fields(&m) {
            Ok(o) => Ok(Document { context, object: o }),
            Err(e) => Err(e),
        }
    }
}

/// Round trip: parsing the serialized form of a document with this
/// payload yields an equal document, for every populated or absent field.
pub proof fn lemma_document_actor_roundtrip(d: DocumentV<crate::model::actor::ActorV>)
    requires
        crate::model::actor::actor_wf(d.object),
    ensures
        doc_actor_from(jr(doc_actor_json(d))) == Ok::<DocumentV<crate::model::actor::ActorV>, ParseError>(d),
{
    crate::fields::lemma_keys();
    let payload = crate::model::actor::actor_fields(d.object);
    let dm = doc_members(d.context, payload);
    crate::model::wf::lemma_actor_fields_wf(d.object);
    lemma_doc_members_wf(d.context, payload);
    crate::roundtrip::lemma_parse_render(JsonV::Obj(dm));
    lemma_doc_ctx_rt(d.context, payload);
    crate::model::actor::lemma_actor_from_equiv(dm, payload);
    crate::model::actor::lemma_actor_rt(d.object);
}

/// The wire tree of a document holding this payload.
pub open spec fn doc_collection_json(d: DocumentV<crate::model::collection::CollectionV>) -> JsonV {
    JsonV::Obj(doc_members(d.context, crate::model::collection::coll_fields(d.object)))
}

/// What parsing a text as a document of this payload yields.
pub open spec fn doc_collection_from(s: Seq<char>) -> Result<DocumentV<crate::model::collection::CollectionV>, ParseError> {
    match sp_json(s) {
        None => Err(ParseError::Syntax),
        Some(j) => match j {
            JsonV::Obj(m) => match doc_ctx_from(m) {
                Err(e) => Err(e),
                Ok(c) => match crate::model::collection::coll_from(m) {
                    Err(e) => Err(e),
                    Ok(o) => Ok(DocumentV { context: c, object: o }),
                },
            },
            _ => Err(ParseError::Shape),
        },
    }
}

impl Document<crate::model::collection::Collection<crate::model::object::Object>> {
    /// Render this document as compact JSON text.
    pub fn serialize(&self) -> (r: String)
        requires
            crate::model::collection::coll_wf(self@.object),
        ensures
            r@ == jr(doc_collection_json(self@)),
    {
        let payload = self.object.to_fields();
        let j = doc_to_json(&self.context, payload);
        crate::render::render_json(&j)
    }

    /// Render this document as indented JSON text.
    pub fn serialize_pretty(&self) -> (r: String)
        requires
            crate::model::collection::coll_wf(self@.object),
        ensures
            r@ == jrp(doc_collection_json(self@), 0),
    {
        let payload = self.object.to_fields();
        let j = doc_to_json(&self.context, payload);
        crate::render::render_json_pretty(&j)
    }

    /// Parse JSON text as a document of this payload.
    pub fn deserialize_string(json: String) -> (r: Result<Document<crate::model::collection::Collection<crate::model::object::Object>>, ParseError>)
        ensures
            match r {
                Ok(d) => doc_collection_from(json@) == Ok::<DocumentV<crate::model::collection::CollectionV>, ParseError>(d@),
                Err(e) => doc_collection_from(json@) == Err::<DocumentV<crate::model::collection::CollectionV>, ParseError>(e),
            },
    {
        let (context, m) = match doc_parse(json.as_str()) {
            Ok(x) => x,
            Err(e) => {
                return Err(e);
            },
        };
        match crate::model::collection::Collection::<crate::model::object::Object>::from_fields(&m) {
            Ok(o) => Ok(Document { context, object: o }),
            Err(e) => Err(e),
        }
    }
}

/// Round trip: parsing the serialized form of a document with this
/// payload yields an equal document, for every populated or absent field.
pub proof fn lemma_document_collection_roundtrip(d: DocumentV<crate::model::collection::CollectionV>)
    requires
        crate::model::collection::coll_wf(d.object),
    ensures
        doc_collection_from(jr(doc_collection_json(d))) == Ok::<DocumentV<crate::model::collection::CollectionV>, ParseError>(d),
{
    crate::fields::lemma_keys();
    let payload = crate::model::collection::coll_fields(d.object);
    let dm = doc_members(d.context, payload);
    crate::model::wf::lemma_coll_fields_wf(d.object);
    lemma_doc_members_wf(d.context, payload);
    crate::roundtrip::lemma_parse_render(JsonV::Obj(dm));
    lemma_doc_ctx_rt(d.context, payload);
    crate::model::collection::lemma_coll_from_at_equiv(dm, payload, "items"@);
    crate::model::collection::lemma_coll_rt(d.object);
}

/// The wire tree of a document holding this payload.
pub open spec fn doc_ordered_collection_json(d: DocumentV<crate::model::collection::CollectionV>) -> JsonV {
    JsonV::Obj(doc_members(d.context, crate::model::collection::ocoll_fields(d.object)))
}

/// What parsing a text as a document of this payload yields.
pub open spec fn doc_ordered_collection_from(s: Seq<char>) -> Result<DocumentV<crate::model::collection::CollectionV>, ParseError> {
    match sp_json(s) {
        None => Err(ParseError::Syntax),
        Some(j) => match j {
            JsonV::Obj(m) => match doc_ctx_from(m) {
                Err(e) => Err(e),
                Ok(c) => match crate::model::collection::ocoll_from(m) {
                    Err(e) => Err(e),
                    Ok(o) => Ok(DocumentV { context: c, object: o }),
                },
            },
            _ => Err(ParseError::Shape),
        },
    }
}

impl Document<crate::model::collection::OrderedCollection<crate::model::object::Object>> {
    /// Render this document as compact JSON text.
    pub fn serialize(&self) -> (r: String)
        requires
            crate::model::collection::coll_wf(self@.object),
        ensures
            r@ == jr(doc_ordered_collection_json(self@)),
    {
        let payload = self.object.to_fields();
        let j = doc_to_json(&self.context, payload);
        crate::render::render_json(&j)
    }

    /// Render this document as indented JSON text.
    pub fn serialize_pretty(&self) -> (r: String)
        requires
            crate::model::collection::coll_wf(self@.object),
        ensures
            r@ == jrp(doc_ordered_collection_json(self@), 0),
    {
        let payload = self.object.to_fields();
        let j = doc_to_json(&self.context, payload);
        crate::render::render_json_pretty(&j)
    }

    /// Parse JSON text as a document of this payload.
    pub fn deserialize_string(json: String) -> (r: Result<Document<crate::model::collection::OrderedCollection<crate::model::object::Object>>, ParseError>)
        ensures
            match r {
                Ok(d) => doc_ordered_collection_from(json@) == Ok::<DocumentV<crate::model::collection::CollectionV>, ParseError>(d@),
                Err(e) => doc_ordered_collection_from(json@) == Err::<DocumentV<crate::model::collection::CollectionV>, ParseError>(e),
            },
    {
        let (context, m) = match doc_parse(json.as_str()) {
            Ok(x) => x,
            Err(e) => {
                return Err(e);
            },
        };
        match crate::model::collection::OrderedCollection::<crate::model::object::Object>::from_fields(&m) {
            Ok(o) => Ok(Document { context, object: o }),
            Err(e) => Err(e),
        }
    }
}

/// Round trip: parsing the serialized form of a document with this
/// payload yields an equal document, for every populated or absent field.
pub proof fn lemma_document_ordered_collection_roundtrip(d: DocumentV<crate::model::collection::CollectionV>)
    requires
        crate::model::collection::coll_wf(d.object),
    ensures
        doc_ordered_collection_from(jr(doc_ordered_collection_json(d))) == Ok::<DocumentV<crate::model::collection::CollectionV>, ParseError>(d),
{
    crate::fields::lemma_keys();
    let payload = crate::model::collection::ocoll_fields(d.object);
    let dm = doc_members(d.context, payload);
    crate::model::wf::lemma_ocoll_fields_wf(d.object);
    lemma_doc_members_wf(d.context, payload);
    crate::roundtrip::lemma_parse_render(JsonV::Obj(dm));
    lemma_doc_ctx_rt(d.context, payload);
    crate::model::collection::lemma_coll_from_at_equiv(dm, payload, "orderedItems"@);
    crate::model::collection::lemma_ocoll_rt(d.object);
}

/// The wire tree of a document holding this payload.
pub open spec fn doc_collection_page_json(d: DocumentV<crate::model::collection::PageV>) -> JsonV {
    JsonV::Obj(doc_members(d.context, crate::model::collection::page_fields(d.object)))
}

/// What parsing a text as a document of this payload yields.
pub open spec fn doc_collection_page_from(s: Seq<char>) -> Result<DocumentV<crate::model::collection::PageV>, ParseError> {
    match sp_json(s) {
        None => Err(ParseError::Syntax),
        Some(j) => match j {
            JsonV::Obj(m) => match doc_ctx_from(m) {
                Err(e) => Err(e),
                Ok(c) => match crate::model::collection::page_from(m) {
                    Err(e) => Err(e),
                    Ok(o) => Ok(DocumentV { context: c, object: o }),
                },
            },
            _ => Err(ParseError::Shape),
        },
    }
}

impl Document<crate::model::collection::CollectionPage<crate::model::object::Object>> {
    /// Render this document as compact JSON text.
    pub fn serialize(&self) -> (r: String)
        requires
            crate::model::collection::page_wf(self@.object),
        ensures
            r@ == jr(doc_collection_page_json(self@)),
    {
        let payload = self.object.to_fields();
        let j = doc_to_json(&self.context, payload);
        crate::render::render_json(&j)
    }

    /// Render this document as indented JSON text.
    pub fn serialize_pretty(&self) -> (r: String)
        requires
            crate::model::collection::page_wf(self@.object),
        ensures
            r@ == jrp(doc_collection_page_json(self@), 0),
    {
        let payload = self.object.to_fields();
        let j = doc_to_json(&self.context, payload);
        crate::render::render_json_pretty(&j)
    }

    /// Parse JSON text as a document of this payload.
    pub fn deserialize_string(json: String) -> (r: Result<Document<crate::model::collection::CollectionPage<crate::model::object::Object>>, ParseError>)
        ensures
            match r {
                Ok(d) => doc_collection_page_from(json@) == Ok::<DocumentV<crate::model::collection::PageV>, ParseError>(d@),
                Err(e) => doc_collection_page_from(json@) == Err::<DocumentV<crate::model::collection::PageV>, ParseError>(e),
            },
    {
        let (context, m) = match doc_parse(json.as_str()) {
            Ok(x) => x,
            Err(e) => {
                return Err(e);
            },
        };
        match crate::model::collection::CollectionPage::<crate::model::object::Object>::from_fields(&m) {
            Ok(o) => Ok(Document { context, object: o }),
            Err(e) => Err(e),
        }
    }
}

/// Round trip: parsing the serialized form of a document with this
/// payload yields an equal document, for every populated or absent field.
pub proof fn lemma_document_collection_page_roundtrip(d: DocumentV<crate::model::collection::PageV>)
    requires
        crate::model::collection::page_wf(d.object),
    ensures
        doc_collection_page_from(jr(doc_collection_page_json(d))) == Ok::<DocumentV<crate::model::collection::PageV>, ParseError>(d),
{
    crate::fields::lemma_keys();
    let payload = crate::model::collection::page_fields(d.object);
    let dm = doc_members(d.context, payload);
    crate::model::wf::lemma_page_fields_wf(d.object);
    lemma_doc_members_wf(d.context, payload);
    crate::roundtrip::lemma_parse_render(JsonV::Obj(dm));
    lemma_doc_ctx_rt(d.context, payload);
    crate::model::collection::lemma_page_from_at_equiv(dm, payload, "items"@);
    crate::model::collection::lemma_page_rt(d.object);
}

/// The wire tree of a document holding this payload.
pub open spec fn doc_ordered_collection_page_json(d: DocumentV<crate::model::collection::PageV>) -> JsonV {
    JsonV::Obj(doc_members(d.context, crate::model::collection::opage_fields(d.object)))
}

/// What parsing a text as a document of this payload yields.
pub open spec fn doc_ordered_collection_page_from(s: Seq<char>) -> Result<DocumentV<crate::model::collection::PageV>, ParseError> {
    match sp_json(s) {
        None => Err(ParseError::Syntax),
        Some(j) => match j {
            JsonV::Obj(m) => match doc_ctx_from(m) {
                Err(e) => Err(e),
                Ok(c) => match crate::model::collection::opage_from(m) {
                    Err(e) => Err(e),
                    Ok(o) => Ok(DocumentV { context: c, object: o }),
                },
            },
            _ => Err(ParseError::Shape),
        },
    }
}

impl Document<crate::model::collection::OrderedCollectionPage<crate::model::object::Object>> {
    /// Render this document as compact JSON text.
    pub fn serialize(&self) -> (r: String)
        requires
            crate::model::collection::page_wf(self@.object),
        ensures
            r@ == jr(doc_ordered_collection_page_json(self@)),
    {
        let payload = self.object.to_fields();
        let j = doc_to_json(&self.context, payload);
        crate::render::render_json(&j)
    }

    /// Render this document as indented JSON text.
    pub fn serialize_pretty(&self) -> (r: String)
        requires
            crate::model::collection::page_wf(self@.object),
        ensures
            r@ == jrp(doc_ordered_collection_page_json(self@), 0),
    {
        let payload = self.object.to_fields();
        let j = doc_to_json(&self.context, payload);
        crate::render::render_json_pretty(&j)
    }

    /// Parse JSON text as a document of this payload.
    pub fn deserialize_string(json: String) -> (r: Result<Document<crate::model::collection::OrderedCollectionPage<crate::model::object::Object>>, ParseError>)
        ensures
            match r {
                Ok(d) => doc_ordered_collection_page_from(json@) == Ok::<DocumentV<crate::model::collection::PageV>, ParseError>(d@),
                Err(e) => doc_ordered_collection_page_from(json@) == Err::<DocumentV<crate::model::collection::PageV>, ParseError>(e),
            },
    {
        let (context, m) = match doc_parse(json.as_str()) {
            Ok(x) => x,
            Err(e) => {
                return Err(e);
            },
        };
        match crate::model::collection::OrderedCollectionPage::<crate::model::object::Object>::from_fields(&m) {
            Ok(o) => Ok(Document { context, object: o }),
            Err(e) => Err(e),
        }
    }
}

/// Round trip: parsing the serialized form of a document with this
/// payload yields an equal document, for every populated or absent field.
pub proof fn lemma_document_ordered_collection_page_roundtrip(d: DocumentV<crate::model::collection::PageV>)
    requires
        crate::model::collection::page_wf(d.object),
    ensures
        doc_ordered_collection_page_from(jr(doc_ordered_collection_page_json(d))) == Ok::<DocumentV<crate::model::collection::PageV>, ParseError>(d),
{
    crate::fields::lemma_keys();
    let payload = crate::model::collection::opage_fields(d.object);
    let dm = doc_members(d.context, payload);
    crate::model::wf::lemma_page_fields_wf(d.object);
    lemma_doc_members_wf(d.context, payload);
    crate::roundtrip::lemma_parse_render(JsonV::Obj(dm));
    lemma_doc_ctx_rt(d.context, payload);
    crate::model::collection::lemma_page_from_at_equiv(dm, payload, "orderedItems"@);
    crate::model::collection::lemma_opage_rt(d.object);
}

impl Document<crate::model::activity::IntransitiveActivity> {
    /// Render this document as compact JSON text; an intransitive
    /// activity has its embedded activity's wire form.
    pub fn serialize(&self) -> (r: String)
        requires
            crate::model::activity::activity_wf(self@.object),
        ensures
            r@ == jr(doc_activity_json(self@)),
    {
        let payload = self.object.to_fields();
        let j = doc_to_json(&self.context, payload);
        crate::render::render_json(&j)
    }

    /// Render this document as indented JSON text.
    pub fn serialize_pretty(&self) -> (r: String)
        requires
            crate::model::activity::activity_wf(self@.object),
        ensures
            r@ == jrp(doc_activity_json(self@), 0),
    {
        let payload = self.object.to_fields();
        let j = doc_to_json(&self.context, payload);
        crate::render::render_json_pretty(&j)
    }

    /// Parse JSON text as a document of this payload.
    pub fn deserialize_string(json: String) -> (r: Result<
        Document<crate::model::activity::IntransitiveActivity>,
        ParseError,
    >)
        ensures
            match r {
                Ok(d) => doc_activity_from(json@) == Ok::<
                    DocumentV<crate::model::activity::ActivityV>,
                    ParseError,
                >(d@),
                Err(e) => doc_activity_from(json@) == Err::<
                    DocumentV<crate::model::activity::ActivityV>,
                    ParseError,
                >(e),
            },
    {
        let (context, m) = match doc_parse(json.as_str()) {
            Ok(x) => x,
            Err(e) => {
                return Err(e);
            },
        };
        match crate::model::activity::IntransitiveActivity::from_fields(&m) {
            Ok(o) => Ok(Document { context, object: o }),
            Err(e) => Err(e),
        }
    }
}

} // verus!
