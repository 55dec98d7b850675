//! Concrete checks of the library's stated properties: round-trip
//! idempotence, field omission, context string collapse, flattening,
//! the collection emptiness rule, link required-field enforcement, and
//! polymorphic resolution, plus the error variants.
use activity_streams::{BuildError, KeyError, ParseError};
use activity_streams::model::builders::{
    ActivityBuilder, ActorBuilder, CollectionBuilder, CollectionPageBuilder, ContextBuilder,
    LinkBuilder, ObjectBuilder, OrderedCollectionBuilder,
};
use activity_streams::model::context_doc::{Context, Document};
use activity_streams::model::object::{AttributedTo, Link, Object};
use activity_streams::model::actor::{Actor, PublicKeyInfo};
use activity_streams::model::collection::Collection;
use activity_streams::timestamp::Timestamp;

#[test]
fn round_trip_populated_object() {
    let object = ObjectBuilder::new()
        .object_type(Some("Note".into()))
        .id(Some("http://example.org/n/1".into()))
        .name(Some("A note".into()))
        .url(Some("http://example.org/n/1.html".into()))
        .published(Some(Timestamp::new(2020, 1, 2, 3, 4, 5)))
        .image(Some(Link::new("http://example.org/i.png".into(), "image/png".into())))
        .content(Some("body".into()))
        .summary(Some("s".into()))
        .duration(Some("PT1M".into()))
        .build()
        .unwrap();
    let doc = Document::new(ContextBuilder::new().build().unwrap(), object);
    let first = doc.serialize();
    let back: Document<Object> = Document::<Object>::deserialize_string(first.clone()).unwrap();
    assert_eq!(back.serialize(), first);
}

#[test]
fn round_trip_absent_fields_object() {
    let object = ObjectBuilder::new().build().unwrap();
    let doc = Document::new(ContextBuilder::new().build().unwrap(), object);
    let first = doc.serialize();
    assert_eq!(first, r#"{"@context":{"@vocab":"https://www.w3.org/ns/activitystreams"}}"#);
    let back: Document<Object> = Document::<Object>::deserialize_string(first.clone()).unwrap();
    assert_eq!(back.serialize(), first);
    assert!(back.object.name.is_none());
    assert!(back.object.attributed_to.is_empty());
}

#[test]
fn round_trip_link_with_counts() {
    let link = LinkBuilder::new()
        .href("http://example.org/a".to_string())
        .height(Some(1080))
        .width(Some(1920))
        .add_rel("canonical".to_string())
        .build()
        .unwrap();
    let doc = Document::new(ContextBuilder::new().build().unwrap(), link);
    let first = doc.serialize();
    let back: Document<Link> = Document::<Link>::deserialize_string(first.clone()).unwrap();
    assert_eq!(back.object.height, Some(1080));
    assert_eq!(back.object.width, Some(1920));
    assert_eq!(back.object.rel, vec!["canonical".to_string()]);
    assert_eq!(back.serialize(), first);
}

#[test]
fn omission_of_unset_fields() {
    let object = ObjectBuilder::new().name(Some("only-name".into())).build().unwrap();
    let doc = Document::new(ContextBuilder::new().build().unwrap(), object);
    let s = doc.serialize();
    assert!(s.contains("\"name\""));
    assert!(!s.contains("\"type\""));
    assert!(!s.contains("\"summary\""));
    assert!(!s.contains("\"attributedTo\""));
    assert!(!s.contains("null"));
}

#[test]
fn context_string_collapse() {
    let listing =
        String::from(r#"{"@context":"https://www.w3.org/ns/activitystreams","type":"Note"}"#);
    let doc: Document<Object> = Document::<Object>::deserialize_string(listing).unwrap();
    let default_ctx = Context::new();
    assert_eq!(doc.context.namespace, default_ctx.namespace);
    assert_eq!(doc.context.language, None);
    // any other string collapses the same way
    let other = String::from(r#"{"@context":"http://something.else.example/","type":"Note"}"#);
    let doc2: Document<Object> = Document::<Object>::deserialize_string(other).unwrap();
    assert_eq!(doc2.context.namespace, default_ctx.namespace);
    // re-serialization emits the object form
    let s = doc.serialize();
    assert!(s.contains(r#""@context":{"@vocab":"https://www.w3.org/ns/activitystreams"}"#));
}

#[test]
fn flatten_composition() {
    let listing = String::from(
        r#"{"@context":{"@vocab":"https://www.w3.org/ns/activitystreams"},"type":"Activity","summary":"Sally did something to a note","actor":{"type":"Person","name":"Sally"},"object":{"type":"Note","name":"A Note"}}"#,
    );
    let doc: Document<activity_streams::model::activity::Activity> =
        Document::<activity_streams::model::activity::Activity>::deserialize_string(listing.clone()).unwrap();
    let activity = &doc.object;
    assert_eq!(activity.base.object_type, Some("Activity".into()));
    assert_eq!(activity.base.summary, Some("Sally did something to a note".into()));
    let actor = activity.actor.as_ref().unwrap();
    assert_eq!(actor.base.object_type, Some("Person".into()));
    assert_eq!(actor.base.name, Some("Sally".into()));
    let object = activity.object.as_ref().unwrap();
    assert_eq!(object.object_type, Some("Note".into()));
    assert_eq!(object.name, Some("A Note".into()));
    // re-serializing reproduces the same key set, here the same text
    assert_eq!(doc.serialize(), listing);
}

#[test]
fn collection_emptiness_rule() {
    let empty: Collection<Object> =
        CollectionBuilder::new("Collection".to_string(), vec![]).build().unwrap();
    assert_eq!(empty.total_items, None);
    let doc = Document::new(ContextBuilder::new().build().unwrap(), empty);
    let s = doc.serialize();
    assert!(!s.contains("items"));
    assert!(!s.contains("totalItems"));

    let a = ObjectBuilder::note("a".into(), "b".into()).build().unwrap();
    let b = ObjectBuilder::note("c".into(), "d".into()).build().unwrap();
    let two: Collection<Object> =
        CollectionBuilder::new("Collection".to_string(), vec![a, b]).build().unwrap();
    assert_eq!(two.total_items, Some(2));
    assert_eq!(two.total_items.unwrap(), two.items.len());
    let doc2 = Document::new(ContextBuilder::new().build().unwrap(), two);
    let s2 = doc2.serialize();
    assert!(s2.contains("\"totalItems\":2"));
    assert!(s2.contains("\"items\":["));
}

#[test]
fn ordered_collection_emptiness_rule() {
    let empty = OrderedCollectionBuilder::<Object>::new("OrderedCollection".to_string(), vec![])
        .build()
        .unwrap();
    assert_eq!(empty.total_items, None);
    let a = ObjectBuilder::note("a".into(), "b".into()).build().unwrap();
    let one = OrderedCollectionBuilder::new("OrderedCollection".to_string(), vec![a])
        .build()
        .unwrap();
    assert_eq!(one.total_items, Some(1));
}

#[test]
fn link_required_field_enforcement() {
    let missing = LinkBuilder::new().name(Some("no href".into())).build();
    assert_eq!(missing.unwrap_err(), BuildError::MissingField);

    let ok = LinkBuilder::new().href("http://example.org/x".to_string()).build().unwrap();
    assert_eq!(ok.link_type, Some("Link".to_string()));
    assert_eq!(ok.href, "http://example.org/x".to_string());
}

#[test]
fn collection_page_required_field_enforcement() {
    let page = CollectionPageBuilder::<Object>::new(
        "CollectionPage".to_string(),
        vec![],
        "http://example.org/whole".to_string(),
    )
    .next(Some("http://example.org/p2".to_string()))
    .build()
    .unwrap();
    assert_eq!(page.part_of, "http://example.org/whole".to_string());
    assert_eq!(page.next, Some("http://example.org/p2".to_string()));
    assert_eq!(page.prev, None);
}

#[test]
fn polymorphic_resolution_object_shape() {
    let listing = String::from(
        r#"{"@context":{"@vocab":"https://www.w3.org/ns/activitystreams"},"type":"Note","attributedTo":[{"type":"Person","id":"http://joe.website.example/","name":"Joe Smith"}]}"#,
    );
    let doc: Document<Object> = Document::<Object>::deserialize_string(listing.clone()).unwrap();
    assert_eq!(doc.object.attributed_to.len(), 1);
    match &doc.object.attributed_to[0] {
        AttributedTo::Object(o) => {
            assert_eq!(o.object_type, Some("Person".into()));
            assert_eq!(o.name, Some("Joe Smith".into()));
        },
        AttributedTo::Link(_) => panic!("resolved as a link"),
    }
    // re-serializing reproduces the same JSON
    assert_eq!(doc.serialize(), listing);
}

#[test]
fn polymorphic_resolution_link_shape() {
    let listing = String::from(
        r#"{"@context":{"@vocab":"https://www.w3.org/ns/activitystreams"},"type":"Note","attributedTo":[{"type":"Link","href":"http://example.org/joe"}]}"#,
    );
    let doc: Document<Object> = Document::<Object>::deserialize_string(listing.clone()).unwrap();
    match &doc.object.attributed_to[0] {
        AttributedTo::Link(l) => {
            assert_eq!(l.href, "http://example.org/joe".to_string());
        },
        AttributedTo::Object(_) => panic!("resolved as an object"),
    }
    assert_eq!(doc.serialize(), listing);
}

#[test]
fn polymorphic_resolution_no_variant() {
    let listing = String::from(
        r#"{"@context":{"@vocab":"https://www.w3.org/ns/activitystreams"},"attributedTo":[5]}"#,
    );
    let r: Result<Document<Object>, ParseError> = Document::<Object>::deserialize_string(listing);
    assert_eq!(r.unwrap_err(), ParseError::NoVariant);
}

#[test]
fn syntax_error_variant() {
    let r: Result<Document<Object>, ParseError> =
        Document::<Object>::deserialize_string("{\"a\":}".to_string());
    assert_eq!(r.unwrap_err(), ParseError::Syntax);
    let r2: Result<Document<Object>, ParseError> =
        Document::<Object>::deserialize_string("".to_string());
    assert_eq!(r2.unwrap_err(), ParseError::Syntax);
}

#[test]
fn shape_error_variant() {
    // a well-typed document whose name member is not a string
    let listing = String::from(
        r#"{"@context":{"@vocab":"https://www.w3.org/ns/activitystreams"},"name":5}"#,
    );
    let r: Result<Document<Object>, ParseError> = Document::<Object>::deserialize_string(listing);
    assert_eq!(r.unwrap_err(), ParseError::Shape);
    // a document without any context member
    let r2: Result<Document<Object>, ParseError> =
        Document::<Object>::deserialize_string(r#"{"name":"x"}"#.to_string());
    assert_eq!(r2.unwrap_err(), ParseError::Shape);
    // a timestamp that does not fit the wire form
    let r3: Result<Document<Object>, ParseError> = Document::<Object>::deserialize_string(
        r#"{"@context":{"@vocab":"https://www.w3.org/ns/activitystreams"},"published":"yesterday"}"#
            .to_string(),
    );
    assert_eq!(r3.unwrap_err(), ParseError::Shape);
}

#[test]
fn string_escapes_round_trip() {
    let object = ObjectBuilder::new()
        .name(Some("quote \" backslash \\ newline \n tab \t".into()))
        .build()
        .unwrap();
    let doc = Document::new(ContextBuilder::new().build().unwrap(), object);
    let s = doc.serialize();
    let back: Document<Object> = Document::<Object>::deserialize_string(s).unwrap();
    assert_eq!(back.object.name, Some("quote \" backslash \\ newline \n tab \t".to_string()));
}

#[test]
fn unicode_escape_parsing() {
    let listing = String::from(
        r#"{"@context":{"@vocab":"https://www.w3.org/ns/activitystreams"},"name":"\u0041\u0042\u0043"}"#,
    );
    let doc: Document<Object> = Document::<Object>::deserialize_string(listing).unwrap();
    assert_eq!(doc.object.name, Some("ABC".to_string()));
}

#[test]
fn timestamp_wire_form() {
    let t = Timestamp::new(2015, 2, 10, 15, 4, 55);
    let object = ObjectBuilder::new().published(Some(t)).build().unwrap();
    let doc = Document::new(ContextBuilder::new().build().unwrap(), object);
    let s = doc.serialize();
    assert!(s.contains("\"published\":\"2015-02-10T15:04:55Z\""));
    let back: Document<Object> = Document::<Object>::deserialize_string(s).unwrap();
    assert_eq!(back.object.published, Some(t));
}

#[test]
fn intransitive_activity_builder() {
    let builder = ActivityBuilder::intransitive_activity("Travel".to_string());
    let activity = builder.build().unwrap();
    assert_eq!(activity.base.object_type, Some("Travel".to_string()));
    assert!(activity.object.is_none());
}

#[test]
fn actor_key_rejects_malformed_pem() {
    let actor = ActorBuilder::new()
        .public_key_info(Some(PublicKeyInfo {
            id: "https://example.com/actor#main-key".to_string(),
            owner: "https://example.com/actor".to_string(),
            public_key_pem: "not a pem at all".to_string(),
        }))
        .build()
        .unwrap();
    assert_eq!(actor.key().unwrap_err(), KeyError::BadPem);
}

#[test]
fn actor_public_key_round_trip() {
    let actor = ActorBuilder::new()
        .with_base(|b| b.object_type(Some("Person".into())))
        .public_key_info(Some(PublicKeyInfo {
            id: "https://example.com/actor#main-key".to_string(),
            owner: "https://example.com/actor".to_string(),
            public_key_pem: "-----BEGIN RSA PUBLIC KEY-----".to_string(),
        }))
        .build()
        .unwrap();
    let doc = Document::new(ContextBuilder::new().build().unwrap(), actor);
    let s = doc.serialize();
    assert!(s.contains("\"publicKey\":{\"id\":"));
    let back: Document<Actor> = Document::<Actor>::deserialize_string(s.clone()).unwrap();
    let k = back.object.public_key_info.as_ref().unwrap();
    assert_eq!(k.owner, "https://example.com/actor".to_string());
    assert_eq!(back.serialize(), s);
}

#[test]
fn intransitive_activity_document_round_trip() {
    let ia = activity_streams::model::builders::IntransitiveActivityBuilder::new()
        .base(ActivityBuilder::intransitive_activity("Travel".to_string()))
        .build()
        .unwrap();
    let doc = Document::new(ContextBuilder::new().build().unwrap(), ia);
    let s = doc.serialize();
    assert!(s.contains("\"type\":\"Travel\""));
    assert!(!s.contains("\"object\""));
    let back: Document<activity_streams::model::activity::IntransitiveActivity> =
        Document::<activity_streams::model::activity::IntransitiveActivity>::deserialize_string(
            s.clone(),
        )
        .unwrap();
    assert_eq!(back.serialize(), s);
}
