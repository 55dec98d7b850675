//! Builders: companion values that assemble entities step by step, with
//! every field defaulted, fixed literals for type-tag fields, and a
//! terminal `build` that can fail only when a required field is missing.
//! Setters consume and return the builder, so calls chain.
use vstd::prelude::*;
use crate::BuildError;
use crate::timestamp::Timestamp;
use crate::model::object::{Object, Link, Preview, AttributedTo};
use crate::model::actor::{Actor, PublicKeyInfo};
use crate::model::activity::{Activity, IntransitiveActivity};
use crate::model::collection::{
    Collection, OrderedCollection, CollectionPage, OrderedCollectionPage,
};
use crate::model::context_doc::{Context, Document, default_context};

verus! {

broadcast use vstd::seq::group_seq_axioms, vstd::std_specs::vec::group_vec_axioms;

/// Builder for [`Context`].
#[derive(Debug)]
pub struct ContextBuilder {
    pub namespace: String,
    pub language: Option<String>,
}

impl ContextBuilder {
    /// A builder for the default context.
    pub fn new() -> (r: ContextBuilder)
        ensures
            r.namespace@ == default_context().namespace,
            r.language is None,
    {
        let c = Context::new();
        ContextBuilder { namespace: c.namespace, language: None }
    }

    /// Set the language tag.
    pub fn language(self, language: Option<String>) -> (r: ContextBuilder)
        ensures
            r == (ContextBuilder { language, ..self }),
    {
        ContextBuilder { language, ..self }
    }

    /// Finalize; a context has no required fields, so this always
    /// succeeds.
    pub fn build(self) -> (r: Result<Context, BuildError>)
        ensures
            r == Ok::<Context, BuildError>(
                Context { namespace: self.namespace, language: self.language },
            ),
    {
        Ok(Context { namespace: self.namespace, language: self.language })
    }
}

impl Default for ContextBuilder {
    /// Same as [`ContextBuilder::new`].
    fn default() -> (r: ContextBuilder)
        ensures
            r.namespace@ == default_context().namespace,
            r.language is None,
    {
        ContextBuilder::new()
    }
}

/// The object a fully-populated object builder yields.
pub open spec fn obj_of_builder(b: ObjectBuilder) -> Object {
    Object {
        object_type: b.object_type,
        id: b.id,
        name: b.name,
        url: b.url,
        published: b.published,
        image: b.image,
        attributed_to: b.attributed_to,
        audience: b.audience,
        content: b.content,
        summary: b.summary,
        duration: b.duration,
        preview: b.preview,
    }
}

/// A freshly-defaulted object builder: every field absent.
pub open spec fn is_default_object_builder(b: ObjectBuilder) -> bool {
    &&& b.object_type is None
    &&& b.id is None
    &&& b.name is None
    &&& b.url is None
    &&& b.published is None
    &&& b.image is None
    &&& b.attributed_to@ == Seq::<AttributedTo>::empty()
    &&& b.audience is None
    &&& b.content is None
    &&& b.summary is None
    &&& b.duration is None
    &&& b.preview is None
}

/// Builder for [`Object`].
#[derive(Debug)]
pub struct ObjectBuilder {
    pub object_type: Option<String>,
    pub id: Option<String>,
    pub name: Option<String>,
    pub url: Option<String>,
    pub published: Option<Timestamp>,
    pub image: Option<Link>,
    pub attributed_to: Vec<AttributedTo>,
    pub audience: Option<Box<Object>>,
    pub content: Option<String>,
    pub summary: Option<String>,
    pub duration: Option<String>,
    pub preview: Option<Box<Preview>>,
}

impl ObjectBuilder {
    /// A builder with every field absent.
    pub fn new() -> (r: ObjectBuilder)
        ensures
            is_default_object_builder(r),
    {
        ObjectBuilder {
            object_type: None,
            id: None,
            name: None,
            url: None,
            published: None,
            image: None,
            attributed_to: Vec::new(),
            audience: None,
            content: None,
            summary: None,
            duration: None,
            preview: None,
        }
    }

    /// A builder whose type tag is already set.
    pub fn of_object_type(t: String) -> (r: ObjectBuilder)
        ensures
            r.object_type == Some(t),
            r.name is None,
            r.content is None,
    {
        ObjectBuilder::new().object_type(Some(t))
    }

    /// A note: type tag `Note`, a name and text content.
    pub fn note(name: String, content: String) -> (r: ObjectBuilder)
        ensures
            r.object_type matches Some(t) && t@ == "Note"@,
            r.name == Some(name),
            r.content == Some(content),
    {
        proof {
            reveal_strlit("Note");
        }
        ObjectBuilder::of_object_type("Note".to_owned()).name(Some(name)).content(Some(content))
    }

    pub fn object_type(self, object_type: Option<String>) -> (r: ObjectBuilder)
        ensures
            r == (ObjectBuilder { object_type, ..self }),
    {
        ObjectBuilder { object_type, ..self }
    }

    pub fn id(self, id: Option<String>) -> (r: ObjectBuilder)
        ensures
            r == (ObjectBuilder { id, ..self }),
    {
        ObjectBuilder { id, ..self }
    }

    pub fn name(self, name: Option<String>) -> (r: ObjectBuilder)
        ensures
            r == (ObjectBuilder { name, ..self }),
    {
        ObjectBuilder { name, ..self }
    }

    pub fn url(self, url: Option<String>) -> (r: ObjectBuilder)
        ensures
            r == (ObjectBuilder { url, ..self }),
    {
        ObjectBuilder { url, ..self }
    }

    pub fn published(self, published: Option<Timestamp>) -> (r: ObjectBuilder)
        ensures
            r == (ObjectBuilder { published, ..self }),
    {
        ObjectBuilder { published, ..self }
    }

    pub fn image(self, image: Option<Link>) -> (r: ObjectBuilder)
        ensures
            r == (ObjectBuilder { image, ..self }),
    {
        ObjectBuilder { image, ..self }
    }

    pub fn attributed_to(self, attributed_to: Vec<AttributedTo>) -> (r: ObjectBuilder)
        ensures
            r == (ObjectBuilder { attributed_to, ..self }),
    {
        ObjectBuilder { attributed_to, ..self }
    }

    /// Append one attribution.
    pub fn add_attributed_to(self, attribution: AttributedTo) -> (r: ObjectBuilder)
        ensures
            r.attributed_to@ == self.attributed_to@.push(attribution),
            r.object_type == self.object_type,
            r.name == self.name,
    {
        let mut b = self;
        b.attributed_to.push(attribution);
        b
    }

    pub fn audience(self, audience: Option<Box<Object>>) -> (r: ObjectBuilder)
        ensures
            r == (ObjectBuilder { audience, ..self }),
    {
        ObjectBuilder { audience, ..self }
    }

    pub fn content(self, content: Option<String>) -> (r: ObjectBuilder)
        ensures
            r == (ObjectBuilder { content, ..self }),
    {
        ObjectBuilder { content, ..self }
    }

    pub fn summary(self, summary: Option<String>) -> (r: ObjectBuilder)
        ensures
            r == (ObjectBuilder { summary, ..self }),
    {
        ObjectBuilder { summary, ..self }
    }

    pub fn duration(self, duration: Option<String>) -> (r: ObjectBuilder)
        ensures
            r == (ObjectBuilder { duration, ..self }),
    {
        ObjectBuilder { duration, ..self }
    }

    pub fn preview(self, preview: Option<Box<Preview>>) -> (r: ObjectBuilder)
        ensures
            r == (ObjectBuilder { preview, ..self }),
    {
        ObjectBuilder { preview, ..self }
    }

    /// Finalize; an object has no required fields, so this always
    /// succeeds.
    pub fn build(self) -> (r: Result<Object, BuildError>)
        ensures
            r == Ok::<Object, BuildError>(obj_of_builder(self)),
    {
        Ok(
            Object {
                object_type: self.object_type,
                id: self.id,
                name: self.name,
                url: self.url,
                published: self.published,
                image: self.image,
                attributed_to: self.attributed_to,
                audience: self.audience,
                content: self.content,
                summary: self.summary,
                duration: self.duration,
                preview: self.preview,
            },
        )
    }
}

impl Default for ObjectBuilder {
    /// Same as [`ObjectBuilder::new`].
    fn default() -> (r: ObjectBuilder)
        ensures
            is_default_object_builder(r),
    {
        ObjectBuilder::new()
    }
}

/// The link a link builder yields once its `href` is known.
pub open spec fn link_of_builder(b: LinkBuilder, href: String) -> Link {
    Link {
        link_type: b.link_type,
        href,
        rel: b.rel,
        media_type: b.media_type,
        name: b.name,
        hreflang: b.hreflang,
        height: b.height,
        width: b.width,
        preview: b.preview,
    }
}

/// Builder for [`Link`]; `href` is the one required field.
#[derive(Debug)]
pub struct LinkBuilder {
    pub link_type: Option<String>,
    pub href: Option<String>,
    pub rel: Vec<String>,
    pub media_type: Option<String>,
    pub name: Option<String>,
    pub hreflang: Option<String>,
    pub height: Option<u32>,
    pub width: Option<u32>,
    pub preview: Option<Preview>,
}

impl LinkBuilder {
    /// A builder with `href` unset and the type tag defaulted to its
    /// canonical literal `Link`.
    pub fn new() -> (r: LinkBuilder)
        ensures
            r.link_type matches Some(t) && t@ == "Link"@,
            r.href is None,
            r.rel@ == Seq::<String>::empty(),
            r.media_type is None,
            r.name is None,
            r.hreflang is None,
            r.height is None,
            r.width is None,
            r.preview is None,
    {
        proof {
            reveal_strlit("Link");
        }
        LinkBuilder {
            link_type: Some("Link".to_owned()),
            href: None,
            rel: Vec::new(),
            media_type: None,
            name: None,
            hreflang: None,
            height: None,
            width: None,
            preview: None,
        }
    }

    pub fn link_type(self, link_type: Option<String>) -> (r: LinkBuilder)
        ensures
            r == (LinkBuilder { link_type, ..self }),
    {
        LinkBuilder { link_type, ..self }
    }

    pub fn href(self, href: String) -> (r: LinkBuilder)
        ensures
            r == (LinkBuilder { href: Some(href), ..self }),
    {
        LinkBuilder { href: Some(href), ..self }
    }

    /// Append one relation.
    pub fn add_rel(self, rel: String) -> (r: LinkBuilder)
        ensures
            r.rel@ == self.rel@.push(rel),
            r.href == self.href,
            r.link_type == self.link_type,
    {
        let mut b = self;
        b.rel.push(rel);
        b
    }

    pub fn media_type(self, media_type: Option<String>) -> (r: LinkBuilder)
        ensures
            r == (LinkBuilder { media_type, ..self }),
    {
        LinkBuilder { media_type, ..self }
    }

    pub fn name(self, name: Option<String>) -> (r: LinkBuilder)
        ensures
            r == (LinkBuilder { name, ..self }),
    {
        LinkBuilder { name, ..self }
    }

    pub fn hreflang(self, hreflang: Option<String>) -> (r: LinkBuilder)
        ensures
            r == (LinkBuilder { hreflang, ..self }),
    {
        LinkBuilder { hreflang, ..self }
    }

    pub fn height(self, height: Option<u32>) -> (r: LinkBuilder)
        ensures
            r == (LinkBuilder { height, ..self }),
    {
        LinkBuilder { height, ..self }
    }

    pub fn width(self, width: Option<u32>) -> (r: LinkBuilder)
        ensures
            r == (LinkBuilder { width, ..self }),
    {
        LinkBuilder { width, ..self }
    }

    pub fn preview(self, preview: Option<Preview>) -> (r: LinkBuilder)
        ensures
            r == (LinkBuilder { preview, ..self }),
    {
        LinkBuilder { preview, ..self }
    }

    /// Finalize. Fails exactly when `href`, the one required field, was
    /// never set; succeeds with the assembled link otherwise.
    pub fn build(self) -> (r: Result<Link, BuildError>)
        ensures
            match self.href {
                Some(h) => r == Ok::<Link, BuildError>(link_of_builder(self, h)),
                None => r == Err::<Link, BuildError>(BuildError::MissingField),
            },
    {
        match self.href {
            Some(href) => Ok(
                Link {
                    link_type: self.link_type,
                    href,
                    rel: self.rel,
                    media_type: self.media_type,
                    name: self.name,
                    hreflang: self.hreflang,
                    height: self.height,
                    width: self.width,
                    preview: self.preview,
                },
            ),
            None => Err(BuildError::MissingField),
        }
    }
}

impl Default for LinkBuilder {
    /// Same as [`LinkBuilder::new`].
    fn default() -> (r: LinkBuilder)
        ensures
            r.link_type matches Some(t) && t@ == "Link"@,
            r.href is None,
    {
        LinkBuilder::new()
    }
}

impl Link {
    /// A link to `href` with a media type; the type tag holds its
    /// canonical literal.
    pub fn new(href: String, media_type: String) -> (r: Link)
        ensures
            r.link_type matches Some(t) && t@ == "Link"@,
            r.href == href,
            r.rel@ == Seq::<String>::empty(),
            r.media_type == Some(media_type),
            r.name is None,
            r.hreflang is None,
            r.height is None,
            r.width is None,
            r.preview is None,
    {
        proof {
            reveal_strlit("Link");
        }
        Link {
            link_type: Some("Link".to_owned()),
            href,
            rel: Vec::new(),
            media_type: Some(media_type),
            name: None,
            hreflang: None,
            height: None,
            width: None,
            preview: None,
        }
    }
}

/// Builder for [`Preview`].
#[derive(Debug)]
pub struct PreviewBuilder {
    pub object_type: Option<String>,
    pub name: Option<String>,
    pub duration: Option<String>,
    pub url: Option<Box<Link>>,
}

impl PreviewBuilder {
    /// A builder whose type tag is defaulted to its canonical literal
    /// `Preview`.
    pub fn new() -> (r: PreviewBuilder)
        ensures
            r.object_type matches Some(t) && t@ == "Preview"@,
            r.name is None,
            r.duration is None,
            r.url is None,
    {
        proof {
            reveal_strlit("Preview");
        }
        PreviewBuilder {
            object_type: Some("Preview".to_owned()),
            name: None,
            duration: None,
            url: None,
        }
    }

    pub fn object_type(self, object_type: Option<String>) -> (r: PreviewBuilder)
        ensures
            r == (PreviewBuilder { object_type, ..self }),
    {
        PreviewBuilder { object_type, ..self }
    }

    pub fn name(self, name: Option<String>) -> (r: PreviewBuilder)
        ensures
            r == (PreviewBuilder { name, ..self }),
    {
        PreviewBuilder { name, ..self }
    }

    pub fn duration(self, duration: Option<String>) -> (r: PreviewBuilder)
        ensures
            r == (PreviewBuilder { duration, ..self }),
    {
        PreviewBuilder { duration, ..self }
    }

    pub fn url(self, url: Option<Box<Link>>) -> (r: PreviewBuilder)
        ensures
            r == (PreviewBuilder { url, ..self }),
    {
        PreviewBuilder { url, ..self }
    }

    /// Finalize; a preview has no required fields, so this always
    /// succeeds.
    pub fn build(self) -> (r: Result<Preview, BuildError>)
        ensures
            r == Ok::<Preview, BuildError>(
                Preview {
                    object_type: self.object_type,
                    name: self.name,
                    duration: self.duration,
                    url: self.url,
                },
            ),
    {
        Ok(
            Preview {
                object_type: self.object_type,
                name: self.name,
                duration: self.duration,
                url: self.url,
            },
        )
    }
}

impl Default for PreviewBuilder {
    /// Same as [`PreviewBuilder::new`].
    fn default() -> (r: PreviewBuilder)
        ensures
            r.object_type matches Some(t) && t@ == "Preview"@,
            r.name is None,
            r.duration is None,
            r.url is None,
    {
        PreviewBuilder::new()
    }
}

/// The activity an activity builder yields.
pub open spec fn activity_of_builder(b: ActivityBuilder) -> Activity {
    Activity {
        base: b.base,
        actor: b.actor,
        object: b.object,
        target: b.target,
        result: b.result,
        to: b.to,
        origin: b.origin,
        instrument: b.instrument,
    }
}

/// Builder for [`Activity`]; the embedded base is itself built through an
/// [`ObjectBuilder`], directly or through a configuration closure.
#[derive(Debug)]
pub struct ActivityBuilder {
    pub base: Object,
    pub actor: Option<Actor>,
    pub object: Option<Object>,
    pub target: Option<Object>,
    pub result: Option<String>,
    pub to: Option<Vec<String>>,
    pub origin: Option<String>,
    pub instrument: Option<String>,
}

impl ActivityBuilder {
    /// A builder over an empty base with every field absent.
    pub fn new() -> (r: ActivityBuilder)
        ensures
            r.base == obj_of_builder(ObjectBuilder {
                object_type: None,
                id: None,
                name: None,
                url: None,
                published: None,
                image: None,
                attributed_to: r.base.attributed_to,
                audience: None,
                content: None,
                summary: None,
                duration: None,
                preview: None,
            }),
            r.base.attributed_to@ == Seq::<AttributedTo>::empty(),
            r.actor is None,
            r.object is None,
            r.target is None,
            r.result is None,
            r.to is None,
            r.origin is None,
            r.instrument is None,
    {
        let b = ObjectBuilder::new();
        let base = match b.build() {
            Ok(o) => o,
            Err(_) => vstd::pervasive::unreached(),
        };
        ActivityBuilder {
            base,
            actor: None,
            object: None,
            target: None,
            result: None,
            to: None,
            origin: None,
            instrument: None,
        }
    }

    /// A builder for an intransitive activity of the given type: its base
    /// carries the type tag and its `object` field is left absent.
    pub fn intransitive_activity(object_type: String) -> (r: ActivityBuilder)
        ensures
            r.base.object_type == Some(object_type),
            r.object is None,
    {
        let base = match ObjectBuilder::new().object_type(Some(object_type)).build() {
            Ok(o) => o,
            Err(_) => vstd::pervasive::unreached(),
        };
        ActivityBuilder { base, ..ActivityBuilder::new() }
    }

    pub fn base(self, base: Object) -> (r: ActivityBuilder)
        ensures
            r == (ActivityBuilder { base, ..self }),
    {
        ActivityBuilder { base, ..self }
    }

    pub fn actor(self, actor: Option<Actor>) -> (r: ActivityBuilder)
        ensures
            r == (ActivityBuilder { actor, ..self }),
    {
        ActivityBuilder { actor, ..self }
    }

    pub fn object(self, object: Option<Object>) -> (r: ActivityBuilder)
        ensures
            r == (ActivityBuilder { object, ..self }),
    {
        ActivityBuilder { object, ..self }
    }

    pub fn target(self, target: Option<Object>) -> (r: ActivityBuilder)
        ensures
            r == (ActivityBuilder { target, ..self }),
    {
        ActivityBuilder { target, ..self }
    }

    pub fn result(self, result: Option<String>) -> (r: ActivityBuilder)
        ensures
            r == (ActivityBuilder { result, ..self }),
    {
        ActivityBuilder { result, ..self }
    }

    pub fn to(self, to: Option<Vec<String>>) -> (r: ActivityBuilder)
        ensures
            r == (ActivityBuilder { to, ..self }),
    {
        ActivityBuilder { to, ..self }
    }

    pub fn origin(self, origin: Option<String>) -> (r: ActivityBuilder)
        ensures
            r == (ActivityBuilder { origin, ..self }),
    {
        ActivityBuilder { origin, ..self }
    }

    pub fn instrument(self, instrument: Option<String>) -> (r: ActivityBuilder)
        ensures
            r == (ActivityBuilder { instrument, ..self }),
    {
        ActivityBuilder { instrument, ..self }
    }

    /// Run a configuration closure over a fresh object builder and
    /// install the built object as this activity's base.
    pub fn with_base<F: FnOnce(ObjectBuilder) -> ObjectBuilder>(self, build_fn: F) -> (r:
        ActivityBuilder)
        requires
            forall|b0: ObjectBuilder|
                is_default_object_builder(b0) ==> build_fn.requires((b0,)),
        ensures
            exists|b0: ObjectBuilder, b1: ObjectBuilder|
                {
                    &&& is_default_object_builder(b0)
                    &&& #[trigger] build_fn.ensures((b0,), b1)
                    &&& r == (ActivityBuilder { base: obj_of_builder(b1), ..self })
                },
    {
        let b0 = ObjectBuilder::new();
        let ghost g0 = b0;
        let b1 = build_fn(b0);
        let base = match b1.build() {
            Ok(o) => o,
            Err(_) => vstd::pervasive::unreached(),
        };
        let r = ActivityBuilder { base, ..self };
        proof {
            assert(is_default_object_builder(g0) && build_fn.ensures((g0,), b1) && r
                == (ActivityBuilder { base: obj_of_builder(b1), ..self }));
        }
        r
    }

    /// Run a configuration closure over a fresh object builder and
    /// install the built object as this activity's `object`.
    pub fn with_object<F: FnOnce(ObjectBuilder) -> ObjectBuilder>(self, build_fn: F) -> (r:
        ActivityBuilder)
        requires
            forall|b0: ObjectBuilder|
                is_default_object_builder(b0) ==> build_fn.requires((b0,)),
        ensures
            exists|b0: ObjectBuilder, b1: ObjectBuilder|
                {
                    &&& is_default_object_builder(b0)
                    &&& #[trigger] build_fn.ensures((b0,), b1)
                    &&& r == (ActivityBuilder { object: Some(obj_of_builder(b1)), ..self })
                },
    {
        let b0 = ObjectBuilder::new();
        let ghost g0 = b0;
        let b1 = build_fn(b0);
        let object = match b1.build() {
            Ok(o) => o,
            Err(_) => vstd::pervasive::unreached(),
        };
        let r = ActivityBuilder { object: Some(object), ..self };
        proof {
            assert(is_default_object_builder(g0) && build_fn.ensures((g0,), b1) && r
                == (ActivityBuilder { object: Some(obj_of_builder(b1)), ..self }));
        }
        r
    }

    /// Run a configuration closure over a fresh object builder and
    /// install the built object as this activity's `target`.
    pub fn with_target<F: FnOnce(ObjectBuilder) -> ObjectBuilder>(self, build_fn: F) -> (r:
        ActivityBuilder)
        requires
            forall|b0: ObjectBuilder|
                is_default_object_builder(b0) ==> build_fn.requires((b0,)),
        ensures
            exists|b0: ObjectBuilder, b1: ObjectBuilder|
                {
                    &&& is_default_object_builder(b0)
                    &&& #[trigger] build_fn.ensures((b0,), b1)
                    &&& r == (ActivityBuilder { target: Some(obj_of_builder(b1)), ..self })
                },
    {
        let b0 = ObjectBuilder::new();
        let ghost g0 = b0;
        let b1 = build_fn(b0);
        let target = match b1.build() {
            Ok(o) => o,
            Err(_) => vstd::pervasive::unreached(),
        };
        let r = ActivityBuilder { target: Some(target), ..self };
        proof {
            assert(is_default_object_builder(g0) && build_fn.ensures((g0,), b1) && r
                == (ActivityBuilder { target: Some(obj_of_builder(b1)), ..self }));
        }
        r
    }

    /// Run a configuration closure over a fresh actor builder and install
    /// the built actor as this activity's `actor`.
    pub fn with_actor<F: FnOnce(ActorBuilder) -> ActorBuilder>(self, build_fn: F) -> (r:
        ActivityBuilder)
        requires
            forall|b0: ActorBuilder| is_default_actor_builder(b0) ==> build_fn.requires((b0,)),
        ensures
            exists|b0: ActorBuilder, b1: ActorBuilder|
                {
                    &&& is_default_actor_builder(b0)
                    &&& #[trigger] build_fn.ensures((b0,), b1)
                    &&& r == (ActivityBuilder { actor: Some(actor_of_builder(b1)), ..self })
                },
    {
        let b0 = ActorBuilder::new();
        let ghost g0 = b0;
        let b1 = build_fn(b0);
        let actor = match b1.build() {
            Ok(a) => a,
            Err(_) => vstd::pervasive::unreached(),
        };
        let r = ActivityBuilder { actor: Some(actor), ..self };
        proof {
            assert(is_default_actor_builder(g0) && build_fn.ensures((g0,), b1) && r
                == (ActivityBuilder { actor: Some(actor_of_builder(b1)), ..self }));
        }
        r
    }

    /// Finalize; an activity has no required fields, so this always
    /// succeeds.
    pub fn build(self) -> (r: Result<Activity, BuildError>)
        ensures
            r == Ok::<Activity, BuildError>(activity_of_builder(self)),
    {
        Ok(
            Activity {
                base: self.base,
                actor: self.actor,
                object: self.object,
                target: self.target,
                result: self.result,
                to: self.to,
                origin: self.origin,
                instrument: self.instrument,
            },
        )
    }
}

impl Default for ActivityBuilder {
    /// Same as [`ActivityBuilder::new`].
    fn default() -> (r: ActivityBuilder)
        ensures
            r.base.attributed_to@ == Seq::<AttributedTo>::empty(),
            r.actor is None,
            r.object is None,
            r.target is None,
    {
        ActivityBuilder::new()
    }
}

/// Builder for [`IntransitiveActivity`].
#[derive(Debug)]
pub struct IntransitiveActivityBuilder {
    pub base: ActivityBuilder,
}

impl IntransitiveActivityBuilder {
    /// A builder over a fresh activity builder.
    pub fn new() -> (r: IntransitiveActivityBuilder)
        ensures
            r.base.object is None,
    {
        IntransitiveActivityBuilder { base: ActivityBuilder::new() }
    }

    pub fn base(self, base: ActivityBuilder) -> (r: IntransitiveActivityBuilder)
        ensures
            r == (IntransitiveActivityBuilder { base }),
    {
        IntransitiveActivityBuilder { base }
    }

    /// Finalize; always succeeds.
    pub fn build(self) -> (r: Result<IntransitiveActivity, BuildError>)
        ensures
            r == Ok::<IntransitiveActivity, BuildError>(
                IntransitiveActivity { base: activity_of_builder(self.base) },
            ),
    {
        match self.base.build() {
            Ok(a) => Ok(IntransitiveActivity { base: a }),
            Err(_) => vstd::pervasive::unreached(),
        }
    }
}

/// The actor an actor builder yields.
pub open spec fn actor_of_builder(b: ActorBuilder) -> Actor {
    Actor {
        base: b.base,
        preferred_username: b.preferred_username,
        inbox: b.inbox,
        outbox: b.outbox,
        followers: b.followers,
        following: b.following,
        liked: b.liked,
        public_key_info: b.public_key_info,
    }
}

/// A freshly-defaulted actor builder.
pub open spec fn is_default_actor_builder(b: ActorBuilder) -> bool {
    &&& b.base.object_type is None
    &&& b.base.attributed_to@ == Seq::<AttributedTo>::empty()
    &&& b.preferred_username is None
    &&& b.inbox is None
    &&& b.outbox is None
    &&& b.followers is None
    &&& b.following is None
    &&& b.liked is None
    &&& b.public_key_info is None
}

/// Builder for [`Actor`].
#[derive(Debug)]
pub struct ActorBuilder {
    pub base: Object,
    pub preferred_username: Option<String>,
    pub inbox: Option<String>,
    pub outbox: Option<String>,
    pub followers: Option<String>,
    pub following: Option<String>,
    pub liked: Option<String>,
    pub public_key_info: Option<PublicKeyInfo>,
}

impl ActorBuilder {
    /// A builder over an empty base with every field absent.
    pub fn new() -> (r: ActorBuilder)
        ensures
            is_default_actor_builder(r),
    {
        let base = match ObjectBuilder::new().build() {
            Ok(o) => o,
            Err(_) => vstd::pervasive::unreached(),
        };
        ActorBuilder {
            base,
            preferred_username: None,
            inbox: None,
            outbox: None,
            followers: None,
            following: None,
            liked: None,
            public_key_info: None,
        }
    }

    pub fn base(self, base: Object) -> (r: ActorBuilder)
        ensures
            r == (ActorBuilder { base, ..self }),
    {
        ActorBuilder { base, ..self }
    }

    /// Run a configuration closure over a fresh object builder and
    /// install the built object as this actor's base.
    pub fn with_base<F: FnOnce(ObjectBuilder) -> ObjectBuilder>(self, build_fn: F) -> (r:
        ActorBuilder)
        requires
            forall|b0: ObjectBuilder|
                is_default_object_builder(b0) ==> build_fn.requires((b0,)),
        ensures
            exists|b0: ObjectBuilder, b1: ObjectBuilder|
                {
                    &&& is_default_object_builder(b0)
                    &&& #[trigger] build_fn.ensures((b0,), b1)
                    &&& r == (ActorBuilder { base: obj_of_builder(b1), ..self })
                },
    {
        let b0 = ObjectBuilder::new();
        let ghost g0 = b0;
        let b1 = build_fn(b0);
        let base = match b1.build() {
            Ok(o) => o,
            Err(_) => vstd::pervasive::unreached(),
        };
        let r = ActorBuilder { base, ..self };
        proof {
            assert(is_default_object_builder(g0) && build_fn.ensures((g0,), b1) && r
                == (ActorBuilder { base: obj_of_builder(b1), ..self }));
        }
        r
    }

    pub fn preferred_username(self, preferred_username: Option<String>) -> (r: ActorBuilder)
        ensures
            r == (ActorBuilder { preferred_username, ..self }),
    {
        ActorBuilder { preferred_username, ..self }
    }

    pub fn inbox(self, inbox: Option<String>) -> (r: ActorBuilder)
        ensures
            r == (ActorBuilder { inbox, ..self }),
    {
        ActorBuilder { inbox, ..self }
    }

    pub fn outbox(self, outbox: Option<String>) -> (r: ActorBuilder)
        ensures
            r == (ActorBuilder { outbox, ..self }),
    {
        ActorBuilder { outbox, ..self }
    }

    pub fn followers(self, followers: Option<String>) -> (r: ActorBuilder)
        ensures
            r == (ActorBuilder { followers, ..self }),
    {
        ActorBuilder { followers, ..self }
    }

    pub fn following(self, following: Option<String>) -> (r: ActorBuilder)
        ensures
            r == (ActorBuilder { following, ..self }),
    {
        ActorBuilder { following, ..self }
    }

    pub fn liked(self, liked: Option<String>) -> (r: ActorBuilder)
        ensures
            r == (ActorBuilder { liked, ..self }),
    {
        ActorBuilder { liked, ..self }
    }

    pub fn public_key_info(self, public_key_info: Option<PublicKeyInfo>) -> (r: ActorBuilder)
        ensures
            r == (ActorBuilder { public_key_info, ..self }),
    {
        ActorBuilder { public_key_info, ..self }
    }

    /// Finalize; an actor has no required fields, so this always
    /// succeeds.
    pub fn build(self) -> (r: Result<Actor, BuildError>)
        ensures
            r == Ok::<Actor, BuildError>(actor_of_builder(self)),
    {
        Ok(
            Actor {
                base: self.base,
                preferred_username: self.preferred_username,
                inbox: self.inbox,
                outbox: self.outbox,
                followers: self.followers,
                following: self.following,
                liked: self.liked,
                public_key_info: self.public_key_info,
            },
        )
    }
}

impl Default for ActorBuilder {
    /// Same as [`ActorBuilder::new`].
    fn default() -> (r: ActorBuilder)
        ensures
            is_default_actor_builder(r),
    {
        ActorBuilder::new()
    }
}

/// Builder for [`Collection`]. The emptiness rule lives in `build`: a
/// collection built of zero items carries no count at all, one built of
/// `n > 0` items carries exactly `n`.
#[derive(Debug)]
pub struct CollectionBuilder<Item> {
    pub base: Object,
    pub items: Vec<Item>,
}

impl<Item> CollectionBuilder<Item> {
    /// A builder over a base carrying the type tag, holding the items.
    pub fn new(collection_type: String, items: Vec<Item>) -> (r: CollectionBuilder<Item>)
        ensures
            r.base.object_type == Some(collection_type),
            r.items == items,
    {
        let base = match ObjectBuilder::new().object_type(Some(collection_type)).build() {
            Ok(o) => o,
            Err(_) => vstd::pervasive::unreached(),
        };
        CollectionBuilder { base, items }
    }

    pub fn base(self, base: Object) -> (r: CollectionBuilder<Item>)
        ensures
            r.base == base,
            r.items == self.items,
    {
        CollectionBuilder { base, items: self.items }
    }

    /// Run a configuration closure over a fresh object builder and
    /// install the built object as this collection's base.
    pub fn with_base<F: FnOnce(ObjectBuilder) -> ObjectBuilder>(self, build_fn: F) -> (r:
        CollectionBuilder<Item>)
        requires
            forall|b0: ObjectBuilder|
                is_default_object_builder(b0) ==> build_fn.requires((b0,)),
        ensures
            exists|b0: ObjectBuilder, b1: ObjectBuilder|
                {
                    &&& is_default_object_builder(b0)
                    &&& #[trigger] build_fn.ensures((b0,), b1)
                    &&& r.base == obj_of_builder(b1)
                } && r.items == self.items,
    {
        let b0 = ObjectBuilder::new();
        let ghost g0 = b0;
        let b1 = build_fn(b0);
        let base = match b1.build() {
            Ok(o) => o,
            Err(_) => vstd::pervasive::unreached(),
        };
        let r = CollectionBuilder { base, items: self.items };
        proof {
            assert(is_default_object_builder(g0) && build_fn.ensures((g0,), b1) && r.base
                == obj_of_builder(b1));
        }
        r
    }

    /// Finalize. Always succeeds; the count is absent exactly when the
    /// item sequence is empty, and equals its length otherwise.
    pub fn build(self) -> (r: Result<Collection<Item>, BuildError>)
        ensures
            r matches Ok(c) && c.base == self.base && c.items == self.items && c.total_items == (
            if self.items@.len() == 0 {
                None::<usize>
            } else {
                Some(self.items@.len() as usize)
            }),
    {
        let total_items: Option<usize> = if self.items.len() == 0 {
            None
        } else {
            Some(self.items.len())
        };
        Ok(Collection { base: self.base, total_items, items: self.items })
    }
}

/// Builder for [`OrderedCollection`], under the same emptiness rule.
#[derive(Debug)]
pub struct OrderedCollectionBuilder<CollectionT> {
    pub base: Object,
    pub ordered_items: Vec<CollectionT>,
}

impl<CollectionT> OrderedCollectionBuilder<CollectionT> {
    /// A builder over a base carrying the type tag, holding the items.
    pub fn new(collection_type: String, ordered_items: Vec<CollectionT>) -> (r:
        OrderedCollectionBuilder<CollectionT>)
        ensures
            r.base.object_type == Some(collection_type),
            r.ordered_items == ordered_items,
    {
        let base = match ObjectBuilder::new().object_type(Some(collection_type)).build() {
            Ok(o) => o,
            Err(_) => vstd::pervasive::unreached(),
        };
        OrderedCollectionBuilder { base, ordered_items }
    }

    /// Finalize. Always succeeds, under the emptiness rule.
    pub fn build(self) -> (r: Result<OrderedCollection<CollectionT>, BuildError>)
        ensures
            r matches Ok(c) && c.base == self.base && c.ordered_items == self.ordered_items
                && c.total_items == (if self.ordered_items@.len() == 0 {
                None::<usize>
            } else {
                Some(self.ordered_items@.len() as usize)
            }),
    {
        let total_items: Option<usize> = if self.ordered_items.len() == 0 {
            None
        } else {
            Some(self.ordered_items.len())
        };
        Ok(OrderedCollection { base: self.base, total_items, ordered_items: self.ordered_items })
    }
}

/// Builder for [`CollectionPage`]; `part_of` is the page's one required
/// field.
#[derive(Debug)]
pub struct CollectionPageBuilder<CollectionT> {
    pub base: CollectionBuilder<CollectionT>,
    pub part_of: Option<String>,
    pub next: Option<String>,
    pub prev: Option<String>,
}

impl<CollectionT> CollectionPageBuilder<CollectionT> {
    /// A builder holding the items and the reference to the whole.
    pub fn new(collection_type: String, items: Vec<CollectionT>, part_of: String) -> (r:
        CollectionPageBuilder<CollectionT>)
        ensures
            r.base.base.object_type == Some(collection_type),
            r.base.items == items,
            r.part_of == Some(part_of),
            r.next is None,
            r.prev is None,
    {
        CollectionPageBuilder {
            base: CollectionBuilder::new(collection_type, items),
            part_of: Some(part_of),
            next: None,
            prev: None,
        }
    }

    pub fn next(self, next: Option<String>) -> (r: CollectionPageBuilder<CollectionT>)
        ensures
            r.base == self.base,
            r.part_of == self.part_of,
            r.next == next,
            r.prev == self.prev,
    {
        CollectionPageBuilder { next, ..self }
    }

    pub fn prev(self, prev: Option<String>) -> (r: CollectionPageBuilder<CollectionT>)
        ensures
            r.base == self.base,
            r.part_of == self.part_of,
            r.next == self.next,
            r.prev == prev,
    {
        CollectionPageBuilder { prev, ..self }
    }

    /// Finalize. Fails exactly when `part_of`, the one required field,
    /// was never set.
    pub fn build(self) -> (r: Result<CollectionPage<CollectionT>, BuildError>)
        ensures
            match self.part_of {
                Some(p) => r matches Ok(c) && c.base.base == self.base.base && c.base.items
                    == self.base.items && c.part_of == p && c.next == self.next && c.prev
                    == self.prev && c.base.total_items == (if self.base.items@.len() == 0 {
                    None::<usize>
                } else {
                    Some(self.base.items@.len() as usize)
                }),
                None => r == Err::<CollectionPage<CollectionT>, BuildError>(
                    BuildError::MissingField,
                ),
            },
    {
        let part_of = match self.part_of {
            Some(p) => p,
            None => {
                return Err(BuildError::MissingField);
            },
        };
        let base = match self.base.build() {
            Ok(c) => c,
            Err(_) => vstd::pervasive::unreached(),
        };
        Ok(CollectionPage { base, part_of, next: self.next, prev: self.prev })
    }
}

/// Builder for [`OrderedCollectionPage`]; `part_of` is required.
#[derive(Debug)]
pub struct OrderedCollectionPageBuilder<CollectionT> {
    pub base: OrderedCollectionBuilder<CollectionT>,
    pub part_of: Option<String>,
    pub next: Option<String>,
    pub prev: Option<String>,
}

impl<CollectionT> OrderedCollectionPageBuilder<CollectionT> {
    /// A builder holding the items and the reference to the whole.
    pub fn new(collection_type: String, items: Vec<CollectionT>, part_of: String) -> (r:
        OrderedCollectionPageBuilder<CollectionT>)
        ensures
            r.base.base.object_type == Some(collection_type),
            r.base.ordered_items == items,
            r.part_of == Some(part_of),
            r.next is None,
            r.prev is None,
    {
        OrderedCollectionPageBuilder {
            base: OrderedCollectionBuilder::new(collection_type, items),
            part_of: Some(part_of),
            next: None,
            prev: None,
        }
    }

    pub fn next(self, next: Option<String>) -> (r: OrderedCollectionPageBuilder<CollectionT>)
        ensures
            r.base == self.base,
            r.part_of == self.part_of,
            r.next == next,
            r.prev == self.prev,
    {
        OrderedCollectionPageBuilder { next, ..self }
    }

    pub fn prev(self, prev: Option<String>) -> (r: OrderedCollectionPageBuilder<CollectionT>)
        ensures
            r.base == self.base,
            r.part_of == self.part_of,
            r.next == self.next,
            r.prev == prev,
    {
        OrderedCollectionPageBuilder { prev, ..self }
    }

    /// Finalize. Fails exactly when `part_of` was never set.
    pub fn build(self) -> (r: Result<OrderedCollectionPage<CollectionT>, BuildError>)
        ensures
            match self.part_of {
                Some(p) => r matches Ok(c) && c.base.base == self.base.base && c.base.ordered_items
                    == self.base.ordered_items && c.part_of == p && c.next == self.next && c.prev
                    == self.prev && c.base.total_items == (
                if self.base.ordered_items@.len() == 0 {
                    None::<usize>
                } else {
                    Some(self.base.ordered_items@.len() as usize)
                }),
                None => r == Err::<OrderedCollectionPage<CollectionT>, BuildError>(
                    BuildError::MissingField,
                ),
            },
    {
        let part_of = match self.part_of {
            Some(p) => p,
            None => {
                return Err(BuildError::MissingField);
            },
        };
        let base = match self.base.build() {
            Ok(c) => c,
            Err(_) => vstd::pervasive::unreached(),
        };
        Ok(OrderedCollectionPage { base, part_of, next: self.next, prev: self.prev })
    }
}

/// Builder for [`Document`]; both the context and the payload must be
/// supplied before `build`.
#[derive(Debug)]
pub struct DocumentBuilder<T> {
    pub context: Option<Context>,
    pub object: Option<T>,
}

impl<T> DocumentBuilder<T> {
    /// A builder with neither part supplied.
    pub fn new() -> (r: DocumentBuilder<T>)
        ensures
            r.context is None,
            r.object is None,
    {
        DocumentBuilder { context: None, object: None }
    }

    pub fn context(self, context: Context) -> (r: DocumentBuilder<T>)
        ensures
            r.context == Some(context),
            r.object == self.object,
    {
        DocumentBuilder { context: Some(context), object: self.object }
    }

    pub fn object(self, object: T) -> (r: DocumentBuilder<T>)
        ensures
            r.object == Some(object),
            r.context == self.context,
    {
        DocumentBuilder { context: self.context, object: Some(object) }
    }

    /// Finalize. Fails exactly when the context or the payload was never
    /// supplied.
    pub fn build(self) -> (r: Result<Document<T>, BuildError>)
        ensures
            match (self.context, self.object) {
                (Some(c), Some(o)) => r matches Ok(d) && d.context == c && d.object == o,
                _ => r == Err::<Document<T>, BuildError>(BuildError::MissingField),
            },
    {
        match (self.context, self.object) {
            (Some(context), Some(object)) => Ok(Document { context, object }),
            _ => Err(BuildError::MissingField),
        }
    }
}

impl<T> Default for DocumentBuilder<T> {
    /// Same as [`DocumentBuilder::new`].
    fn default() -> (r: DocumentBuilder<T>)
        ensures
            r.context is None,
            r.object is None,
    {
        DocumentBuilder::new()
    }
}

} // verus!
