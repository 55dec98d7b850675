//! The processing-context header and the document envelope that pairs one
//! context with one payload entity in a single flat JSON object.
//!
//! A context may arrive as a structured object or as a bare string; any
//! non-object form collapses to the default context, whatever it holds.
//! Serialization always emits the object form, so a string-context
//! document changes shape, but not meaning, across a parse/serialize round
//! trip.
use vstd::prelude::*;
use crate::ParseError;
use crate::json::{Json, JsonV, obj_view, wf_json};
use crate::fields::{lookup, f_str, f_req_str, put_str, vo, wf_members, lemma_wf_members_concat};
use crate::render::{jr, jrp};
use crate::parse::sp_json;

verus! {

broadcast use vstd::seq::group_seq_axioms, vstd::std_specs::vec::group_vec_axioms, vstd::string::group_string_axioms;

/// The fixed vocabulary namespace.
pub open spec fn default_namespace() -> Seq<char> {
    "https://www.w3.org/ns/activitystreams"@
}

/// The processing context: a namespace and an optional language tag.
#[derive(Debug)]
pub struct Context {
    pub namespace: String,
    pub language: Option<String>,
}

/// The mathematical mirror of [`Context`].
pub ghost struct ContextV {
    pub namespace: Seq<char>,
    pub language: Option<Seq<char>>,
}

impl View for Context {
    type V = ContextV;

    open spec fn view(&self) -> ContextV {
        ContextV { namespace: self.namespace@, language: vo(self.language) }
    }
}

/// The default context: the fixed namespace, no language.
pub open spec fn default_context() -> ContextV {
    ContextV { namespace: default_namespace(), language: None }
}

/// The wire members of a context, in its object form.
pub open spec fn ctx_fields(v: ContextV) -> Seq<(Seq<char>, JsonV)> {
    seq![("@vocab"@, JsonV::Str(v.namespace))] + put_str("@language"@, v.language)
}

/// Normalize a context value. An object form is read strictly; any other
/// JSON value — a bare string in particular — collapses to the default
/// context, its content discarded.
pub open spec fn ctx_from_value(j: JsonV) -> Result<ContextV, ParseError> {
    match j {
        JsonV::Obj(m) => match f_req_str(m, "@vocab"@) {
            Err(e) => Err(e),
            Ok(namespace) => match f_str(m, "@language"@) {
                Err(e) => Err(e),
                Ok(language) => Ok(ContextV { namespace, language }),
            },
        },
        _ => Ok(default_context()),
    }
}

impl Context {
    /// The default context.
    pub fn new() -> (r: Context)
        ensures
            r@ == default_context(),
    {
        proof {
            reveal_strlit("https://www.w3.org/ns/activitystreams");
        }
        Context {
            namespace: "https://www.w3.org/ns/activitystreams".to_owned(),
            language: None,
        }
    }

    /// The wire members of this context.
    pub fn to_fields(&self) -> (r: Vec<(String, Json)>)
        ensures
            obj_view(r@) == ctx_fields(self@),
    {
        let mut out: Vec<(String, Json)> = Vec::new();
        proof {
            crate::json::lemma_obj_view(out@);
            assert(obj_view(out@) =~= Seq::<(Seq<char>, JsonV)>::empty());
        }
        crate::fields::push_field(&mut out, "@vocab", Json::Str(self.namespace.clone()));
        crate::fields::push_str_field(&mut out, "@language", &self.language);
        proof {
            assert(obj_view(out@) =~= ctx_fields(self@));
        }
        out
    }

    /// Normalize a context from its JSON value.
    pub fn from_value(j: &Json) -> (r: Result<Context, ParseError>)
        ensures
            match r {
                Ok(c) => ctx_from_value(j@) == Ok::<ContextV, ParseError>(c@),
                Err(e) => ctx_from_value(j@) == Err::<ContextV, ParseError>(e),
            },
    {
        match j {
            Json::Obj(m) => {
                let namespace = match crate::fields::get_req_str(m, "@vocab") {
                    Ok(s) => s,
                    Err(e) => {
                        return Err(e);
                    },
                };
                let language = match crate::fields::get_str(m, "@language") {
                    Ok(o) => o,
                    Err(e) => {
                        return Err(e);
                    },
                };
                Ok(Context { namespace, language })
            },
            _ => Ok(Context::new()),
        }
    }
}

/// Round trip: a context's object form reads back as the same context.
pub proof fn lemma_ctx_rt(v: ContextV)
    ensures
        ctx_from_value(JsonV::Obj(ctx_fields(v))) == Ok::<ContextV, ParseError>(v),
{
    crate::fields::lemma_keys();
    let s1 = seq![("@vocab"@, JsonV::Str(v.namespace))];
    let s2 = put_str("@language"@, v.language);
    assert(ctx_fields(v) == s1 + s2);
    crate::fields::lemma_lookup_one("@vocab"@, JsonV::Str(v.namespace), "@vocab"@);
    crate::fields::lemma_lookup_one("@vocab"@, JsonV::Str(v.namespace), "@language"@);
    crate::fields::lemma_lookup_put_str("@language"@, v.language, "@vocab"@);
    crate::fields::lemma_lookup_put_str("@language"@, v.language, "@language"@);
    crate::fields::lemma_lookup_append(s1, s2, "@vocab"@);
    crate::fields::lemma_lookup_append(s1, s2, "@language"@);
}

/// Context string collapse: a bare string context — whatever its content —
/// normalizes to the very context that the explicit default object form
/// normalizes to; only the wire shape differs.
pub proof fn lemma_ctx_string_collapse(s: Seq<char>)
    ensures
        ctx_from_value(JsonV::Str(s)) == Ok::<ContextV, ParseError>(default_context()),
        ctx_from_value(JsonV::Obj(ctx_fields(default_context()))) == ctx_from_value(
            JsonV::Str(s),
        ),
{
    lemma_ctx_rt(default_context());
}

/// The outer wire envelope: one context and one payload entity, their
/// members flattened into a single JSON object under one `@context` key.
#[derive(Debug)]
pub struct Document<T> {
    pub context: Context,
    pub object: T,
}

/// The mathematical mirror of [`Document`].
pub ghost struct DocumentV<PV> {
    pub context: ContextV,
    pub object: PV,
}

impl<T: View> View for Document<T> {
    type V = DocumentV<T::V>;

    open spec fn view(&self) -> DocumentV<T::V> {
        DocumentV { context: self.context@, object: self.object@ }
    }
}

impl<T> Document<T> {
    /// Pair a context with a payload.
    pub fn new(context: Context, object: T) -> (r: Document<T>)
        ensures
            r.context == context,
            r.object == object,
    {
        Document { context, object }
    }
}

/// The members of a document: the context under `@context`, then the
/// payload's flattened members.
pub open spec fn doc_members(c: ContextV, payload: Seq<(Seq<char>, JsonV)>) -> Seq<
    (Seq<char>, JsonV),
> {
    seq![("@context"@, JsonV::Obj(ctx_fields(c)))] + payload
}

/// Read a document's context member, which must be present.
pub open spec fn doc_ctx_from(m: Seq<(Seq<char>, JsonV)>) -> Result<ContextV, ParseError> {
    match lookup(m, "@context"@) {
        None => Err(ParseError::Shape),
        Some(j) => ctx_from_value(j),
    }
}

/// Serialize a document: context members plus payload members, compact.
pub fn doc_to_json(context: &Context, payload: Vec<(String, Json)>) -> (r: Json)
    ensures
        r@ == JsonV::Obj(doc_members(context@, obj_view(payload@))),
{
    let mut out: Vec<(String, Json)> = Vec::new();
    proof {
        crate::json::lemma_obj_view(out@);
        assert(obj_view(out@) =~= Seq::<(Seq<char>, JsonV)>::empty());
    }
    let cf = context.to_fields();
    crate::fields::push_field(&mut out, "@context", Json::Obj(cf));
    let ghost out1 = out@;
    let mut rest = payload;
    let ghost restv = rest@;
    out.append(&mut rest);
    proof {
        crate::json::lemma_obj_view(out@);
        crate::json::lemma_obj_view(out1);
        crate::json::lemma_obj_view(restv);
        assert(obj_view(out@) =~= obj_view(out1) + obj_view(restv));
        assert(obj_view(out@) =~= doc_members(context@, obj_view(restv)));
    }
    Json::Obj(out)
}

/// Parse a document's text into its context and flat member list.
pub fn doc_parse(json: &str) -> (r: Result<(Context, Vec<(String, Json)>), ParseError>)
    ensures
        match r {
            Ok((c, m)) => {
                &&& sp_json(json@) matches Some(j)
                &&& j matches JsonV::Obj(mv)
                &&& obj_view(m@) == mv
                &&& doc_ctx_from(mv) == Ok::<ContextV, ParseError>(c@)
            },
            Err(e) => match sp_json(json@) {
                None => e == ParseError::Syntax,
                Some(j) => match j {
                    JsonV::Obj(mv) => doc_ctx_from(mv) == Err::<ContextV, ParseError>(e),
                    _ => e == ParseError::Shape,
                },
            },
        },
{
    let j = match crate::parse::parse_json(json) {
        Ok(j) => j,
        Err(e) => {
            return Err(e);
        },
    };
    match j {
        Json::Obj(m) => {
            match crate::fields::get(&m, "@context") {
                None => Err(ParseError::Shape),
                Some(cj) => match Context::from_value(cj) {
                    Ok(c) => Ok((c, m)),
                    Err(e) => Err(e),
                },
            }
        },
        _ => Err(ParseError::Shape),
    }
}

/// The document members are well formed when the payload members are.
pub proof fn lemma_doc_members_wf(c: ContextV, payload: Seq<(Seq<char>, JsonV)>)
    requires
        wf_members(payload),
    ensures
        wf_json(JsonV::Obj(doc_members(c, payload))),
{
    let s1 = seq![("@context"@, JsonV::Obj(ctx_fields(c)))];
    assert(wf_members(ctx_fields(c))) by {
        let c1 = seq![("@vocab"@, JsonV::Str(c.namespace))];
        let c2 = put_str("@language"@, c.language);
        assert(wf_members(c1));
        assert(wf_members(c2));
        lemma_wf_members_concat(c1, c2);
    }
    assert(wf_json(JsonV::Obj(ctx_fields(c))));
    assert(wf_members(s1));
    lemma_wf_members_concat(s1, payload);
    assert(wf_members(doc_members(c, payload)));
}

/// The context member of a serialized document reads back as its context,
/// and the payload members' lookups are unchanged by the context member.
pub proof fn lemma_doc_ctx_rt(c: ContextV, payload: Seq<(Seq<char>, JsonV)>)
    ensures
        doc_ctx_from(doc_members(c, payload)) == Ok::<ContextV, ParseError>(c),
        forall|k: Seq<char>| k != "@context"@ ==> lookup(doc_members(c, payload), k) == lookup(
            payload,
            k,
        ),
{
    let s1 = seq![("@context"@, JsonV::Obj(ctx_fields(c)))];
    crate::fields::lemma_lookup_one("@context"@, JsonV::Obj(ctx_fields(c)), "@context"@);
    crate::fields::lemma_lookup_append(s1, payload, "@context"@);
    lemma_ctx_rt(c);
    assert forall|k: Seq<char>| k != "@context"@ implies lookup(doc_members(c, payload), k)
        == lookup(payload, k) by {
        crate::fields::lemma_lookup_one("@context"@, JsonV::Obj(ctx_fields(c)), k);
        crate::fields::lemma_lookup_append(s1, payload, k);
    }
}

} // verus!
