//! Serialization and parsing of the individual entity types.
use activity_streams::json::Json;
use activity_streams::model::builders::{
    ActivityBuilder, ActorBuilder, ContextBuilder, DocumentBuilder, LinkBuilder, ObjectBuilder,
    PreviewBuilder,
};
use activity_streams::model::context_doc::{Context, Document};
use activity_streams::model::object::{Link, Object};
use activity_streams::model::activity::Activity;
use activity_streams::model::actor::Actor;
use activity_streams::render::render_json_pretty;
use activity_streams::parse::parse_json;

#[test]
fn serialize_context() {
    let ctx: Context = ContextBuilder::default().language(Some("en".into())).build().unwrap();
    let expected = r#"{
  "@vocab": "https://www.w3.org/ns/activitystreams",
  "@language": "en"
}"#;
    assert_eq!(render_json_pretty(&Json::Obj(ctx.to_fields())), expected);
}

#[test]
fn deserialize_context() {
    let actual = String::from(
        r#"{
    "@vocab": "https://www.w3.org/ns/activitystreams",
    "@language": "en"
}"#,
    );
    let j = parse_json(&actual).unwrap();
    let ctx = Context::from_value(&j).unwrap();
    assert_eq!(ctx.language, Some("en".into()));
    assert_eq!(ctx.namespace, "https://www.w3.org/ns/activitystreams".to_string());
}

#[test]
fn object_serialize_object() {
    let object: Object = ObjectBuilder::default().name(Some("name".into())).build().unwrap();
    let context: Context = ContextBuilder::new().language(Some("en".into())).build().unwrap();
    let actual = DocumentBuilder::default().object(object).context(context).build().unwrap();
    let expected = r#"{
  "@context": {
    "@vocab": "https://www.w3.org/ns/activitystreams",
    "@language": "en"
  },
  "name": "name"
}"#;
    assert_eq!(actual.serialize_pretty(), expected);
}

#[test]
fn object_deserialize_object() {
    let actual = String::from(
        r#"{
  "@context": {
    "@vocab": "https://www.w3.org/ns/activitystreams",
    "@language": "en"
  },
  "name": "name"
}"#,
    );
    let document: Document<Object> = Document::<Object>::deserialize_string(actual).unwrap();
    assert_eq!(document.context.language, Some("en".into()));
    let object = document.object as Object;
    assert_eq!(object.name, Some("name".into()));
}

#[test]
fn object_deserialize_object_malformed() {
    let actual = String::from(
        r#"{
  "@context": {
    "@vocab": "https://www.w3.org/ns/activitystreams",
    "@language": "en"
  },
}"#,
    );
    let result: Result<Document<Object>, _> = Document::<Object>::deserialize_string(actual);
    assert!(result.is_err());
}

#[test]
fn object_serialize_link() {
    let href = "http://example.org/abc".to_string();
    let actual = Document::new(
        ContextBuilder::new().build().unwrap(),
        LinkBuilder::new()
            .href(href)
            .name(Some("An example link".into()))
            .hreflang(Some("en".into()))
            .link_type(Some("Link".into()))
            .media_type(Some("text/html".into()))
            .build()
            .unwrap(),
    );
    let expected = String::from(
        r#"{
  "@context": {
    "@vocab": "https://www.w3.org/ns/activitystreams"
  },
  "type": "Link",
  "href": "http://example.org/abc",
  "mediaType": "text/html",
  "name": "An example link",
  "hreflang": "en"
}"#,
    );
    assert_eq!(actual.serialize_pretty(), expected);
}

#[test]
fn object_deserialize_link() {
    let actual = String::from(
        r#"{
  "@context": {
    "@vocab": "https://www.w3.org/ns/activitystreams"
  },
  "type": "Link",
  "href": "http://example.org/abc",
  "name": "An example link",
  "hreflang": "en"
}"#,
    );
    let document: Document<Link> = Document::<Link>::deserialize_string(actual).unwrap();
    let link = document.object as Link;
    assert_eq!(link.link_type, Some("Link".into()));
    assert_eq!(link.href, "http://example.org/abc".to_string());
    assert_eq!(link.name, Some("An example link".into()));
    assert_eq!(link.hreflang, Some("en".into()));
}

#[test]
fn object_serialize_preview() {
    let trailer_preview = Link::new("http://example.org/trailer.mkv".into(), "video/mkv".into());
    let preview = PreviewBuilder::new()
        .duration(Some("PT1M".into()))
        .object_type(Some("Video".into()))
        .url(Some(Box::new(trailer_preview)))
        .name(Some("Trailer".into()))
        .build()
        .unwrap();

    let object = ObjectBuilder::default()
        .duration(Some("PT2H30M".into()))
        .name(Some("Cool New Movie".into()))
        .preview(Some(Box::new(preview)))
        .object_type(Some("Video".into()))
        .build()
        .unwrap();
    let context = ContextBuilder::new().build().unwrap();
    let actual = Document::new(context, object);
    let expected = String::from(
        r#"{
  "@context": {
    "@vocab": "https://www.w3.org/ns/activitystreams"
  },
  "type": "Video",
  "name": "Cool New Movie",
  "duration": "PT2H30M",
  "preview": {
    "type": "Video",
    "name": "Trailer",
    "duration": "PT1M",
    "url": {
      "type": "Link",
      "href": "http://example.org/trailer.mkv",
      "mediaType": "video/mkv"
    }
  }
}"#,
    );
    assert_eq!(actual.serialize_pretty(), expected);
}

#[test]
fn object_deserialize_preview() {
    let actual = String::from(
        r#"{
  "@context": {
    "@vocab": "https://www.w3.org/ns/activitystreams"
  },
  "type": "Video",
  "name": "Cool New Movie",
  "duration": "PT2H30M",
  "preview": {
    "type": "Video",
    "name": "Trailer",
    "duration": "PT1M",
    "url": {
      "href": "http://example.org/trailer.mkv",
      "mediaType": "video/mkv"
    }
  }
}"#,
    );
    let document: Document<Object> = Document::<Object>::deserialize_string(actual).unwrap();
    let object = document.object;
    assert_eq!(object.object_type, Some("Video".into()));
    assert_eq!(object.name, Some("Cool New Movie".into()));
    assert_eq!(object.duration, Some("PT2H30M".into()));

    let preview = object.preview.unwrap();
    assert_eq!(preview.object_type, Some("Video".into()));
    assert_eq!(preview.name, Some("Trailer".into()));
    assert_eq!(preview.duration, Some("PT1M".into()));

    let url = preview.url.as_ref().unwrap();
    assert_eq!(url.media_type, Some("video/mkv".into()));
    assert_eq!(url.href, "http://example.org/trailer.mkv".to_string());
}

#[test]
fn object_serialize_note() {
    let context = ContextBuilder::new().build().unwrap();
    let note = ObjectBuilder::note("Name".into(), "Content".into()).build().unwrap();
    let document: Document<Object> = Document::new(context, note);
    let expected = r#"{
  "@context": {
    "@vocab": "https://www.w3.org/ns/activitystreams"
  },
  "type": "Note",
  "name": "Name",
  "content": "Content"
}"#;
    assert_eq!(document.serialize_pretty(), expected);
}

#[test]
fn object_deserialize_note() {
    let actual = r#"{
  "@context": {
    "@vocab": "https://www.w3.org/ns/activitystreams"
  },
  "type": "Note",
  "name": "Name",
  "content": "Content"
}"#
    .into();
    let document: Document<Object> = Document::<Object>::deserialize_string(actual).unwrap();
    let note: Object = document.object;
    assert_eq!(note.object_type, Some("Note".into()));
    assert_eq!(note.name, Some("Name".into()));
    assert_eq!(note.content, Some("Content".into()));
}

#[test]
fn activity_serialize_activity() {
    let activity = ActivityBuilder::default()
        .with_base(|builder| {
            builder
                .object_type(Some("Activity".into()))
                .summary(Some("Sally did something to a note".into()))
        })
        .with_object(|builder| {
            builder.object_type(Some("Note".into())).name(Some("A Note".into()))
        })
        .with_actor(|actor| {
            actor.with_base(|builder| {
                builder.object_type(Some("Person".into())).name(Some("Sally".into()))
            })
        })
        .build()
        .unwrap();
    let actual = Document::new(ContextBuilder::default().build().unwrap(), activity);
    let expected = String::from(
        r#"{
  "@context": {
    "@vocab": "https://www.w3.org/ns/activitystreams"
  },
  "type": "Activity",
  "summary": "Sally did something to a note",
  "actor": {
    "type": "Person",
    "name": "Sally"
  },
  "object": {
    "type": "Note",
    "name": "A Note"
  }
}"#,
    );
    assert_eq!(actual.serialize_pretty(), expected);
}

#[test]
fn activity_deserialize_activity() {
    let actual = String::from(
        r#"{
  "@context": {
    "@vocab": "https://www.w3.org/ns/activitystreams"
  },
  "type": "Activity",
  "summary": "Sally did something to a note",
  "actor": {
    "type": "Person",
    "name": "Sally"
  },
  "object": {
    "type": "Note",
    "name": "A Note"
  }
}"#,
    );
    let document: Document<Activity> = Document::<Activity>::deserialize_string(actual).unwrap();
    let activity = document.object as Activity;
    assert_eq!(activity.base.object_type, Some("Activity".into()));
    assert_eq!(activity.base.summary, Some("Sally did something to a note".into()));

    assert!(activity.actor.is_some());
    let actor = activity.actor.unwrap();
    assert_eq!(actor.base.object_type, Some("Person".into()));
    assert_eq!(actor.base.name, Some("Sally".into()));

    assert!(activity.object.is_some());
    let object = activity.object.as_ref().unwrap();
    assert_eq!(object.object_type, Some("Note".into()));
    assert_eq!(object.name, Some("A Note".into()));
}

#[test]
fn actor_serialize_actor() {
    let person = ActorBuilder::default()
        .with_base(|base| {
            base.object_type(Some("Person".into()))
                .id(Some("https://example.com/person/1234".into()))
                .name(Some("name".into()))
        })
        .preferred_username(Some("dma".into()))
        .build()
        .unwrap();
    let context = ContextBuilder::new().build().unwrap();
    let actual = Document::new(context, person);
    let expected = r#"{
  "@context": {
    "@vocab": "https://www.w3.org/ns/activitystreams"
  },
  "type": "Person",
  "id": "https://example.com/person/1234",
  "name": "name",
  "preferredUsername": "dma"
}"#;
    assert_eq!(actual.serialize_pretty(), expected);
}

#[test]
fn actor_deserialize_actor() {
    let actual = r#"{
  "@context": {
    "@vocab": "https://www.w3.org/ns/activitystreams"
  },
  "type": "Person",
  "id": "https://example.com/person/1234",
  "name": "name",
  "preferredUsername": "dma"
}"#;
    let document: Document<Actor> = Document::<Actor>::deserialize_string(actual.into()).unwrap();
    let actor = document.object;
    assert_eq!(actor.base.object_type, Some("Person".into()));
    assert_eq!(actor.base.id, Some("https://example.com/person/1234".into()));
    assert_eq!(actor.base.name, Some("name".into()));
    assert_eq!(actor.preferred_username, Some("dma".into()));
}
