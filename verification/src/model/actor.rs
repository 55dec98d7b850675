//! Actors: an embedded base object flattened together with actor-only
//! fields, and the public-key information consumed by the cryptographic
//! identity collaborator.
use vstd::prelude::*;
use crate::{ParseError, KeyError};
use crate::json::{Json, JsonV, obj_view};
use crate::fields::{lookup, f_str, f_req_str, put_str, vo};
use crate::model::object::{
    Object, ObjectV, obj_wf, obj_fields, obj_from, lemma_obj_lookup, lemma_obj_rt,
    lemma_obj_from_extended,
};

verus! {

broadcast use vstd::seq::group_seq_axioms, vstd::std_specs::vec::group_vec_axioms, vstd::string::group_string_axioms;

/// An actor: a base object plus addressing endpoints and an optional
/// public key.
#[derive(Debug)]
pub struct Actor {
    pub base: Object,
    pub preferred_username: Option<String>,
    pub inbox: Option<String>,
    pub outbox: Option<String>,
    pub followers: Option<String>,
    pub following: Option<String>,
    pub liked: Option<String>,
    pub public_key_info: Option<PublicKeyInfo>,
}

/// The public-key material of an actor; every field is required once the
/// `publicKey` member is present.
#[derive(Debug, Clone)]
pub struct PublicKeyInfo {
    pub id: String,
    pub owner: String,
    pub public_key_pem: String,
}

/// The mathematical mirror of [`Actor`].
pub ghost struct ActorV {
    pub base: ObjectV,
    pub preferred_username: Option<Seq<char>>,
    pub inbox: Option<Seq<char>>,
    pub outbox: Option<Seq<char>>,
    pub followers: Option<Seq<char>>,
    pub following: Option<Seq<char>>,
    pub liked: Option<Seq<char>>,
    pub public_key_info: Option<PublicKeyInfoV>,
}

/// The mathematical mirror of [`PublicKeyInfo`].
pub ghost struct PublicKeyInfoV {
    pub id: Seq<char>,
    pub owner: Seq<char>,
    pub public_key_pem: Seq<char>,
}

impl View for PublicKeyInfo {
    type V = PublicKeyInfoV;

    open spec fn view(&self) -> PublicKeyInfoV {
        PublicKeyInfoV { id: self.id@, owner: self.owner@, public_key_pem: self.public_key_pem@ }
    }
}

impl View for Actor {
    type V = ActorV;

    open spec fn view(&self) -> ActorV {
        ActorV {
            base: self.base@,
            preferred_username: vo(self.preferred_username),
            inbox: vo(self.inbox),
            outbox: vo(self.outbox),
            followers: vo(self.followers),
            following: vo(self.following),
            liked: vo(self.liked),
            public_key_info: match self.public_key_info {
                Some(k) => Some(k@),
                None => None,
            },
        }
    }
}

/// Well-formedness of an actor view.
pub open spec fn actor_wf(v: ActorV) -> bool {
    obj_wf(v.base)
}

/// The wire members of public-key information.
pub open spec fn pki_fields(v: PublicKeyInfoV) -> Seq<(Seq<char>, JsonV)> {
    seq![
        ("id"@, JsonV::Str(v.id)),
        ("owner"@, JsonV::Str(v.owner)),
        ("publicKeyPem"@, JsonV::Str(v.public_key_pem)),
    ]
}

/// Read public-key information; all three members are required.
pub open spec fn pki_from(m: Seq<(Seq<char>, JsonV)>) -> Result<PublicKeyInfoV, ParseError> {
    match f_req_str(m, "id"@) {
        Err(e) => Err(e),
        Ok(id) => match f_req_str(m, "owner"@) {
            Err(e) => Err(e),
            Ok(owner) => match f_req_str(m, "publicKeyPem"@) {
                Err(e) => Err(e),
                Ok(public_key_pem) => Ok(PublicKeyInfoV { id, owner, public_key_pem }),
            },
        },
    }
}

/// The actor-only wire members, in declaration order.
pub open spec fn actor_own(v: ActorV) -> Seq<(Seq<char>, JsonV)> {
    put_str("preferredUsername"@, v.preferred_username) + put_str("inbox"@, v.inbox) + put_str(
        "outbox"@,
        v.outbox,
    ) + put_str("followers"@, v.followers) + put_str("following"@, v.following) + put_str(
        "liked"@,
        v.liked,
    ) + (match v.public_key_info {
        Some(k) => seq![("publicKey"@, JsonV::Obj(pki_fields(k)))],
        None => Seq::empty(),
    })
}

/// The wire members of an actor: the base object's flattened together with
/// the actor's own.
pub open spec fn actor_fields(v: ActorV) -> Seq<(Seq<char>, JsonV)> {
    obj_fields(v.base) + actor_own(v)
}

/// Read an actor from flat wire members.
pub open spec fn actor_from(m: Seq<(Seq<char>, JsonV)>) -> Result<ActorV, ParseError> {
    match obj_from(m) {
        Err(e) => Err(e),
        Ok(base) => match f_str(m, "preferredUsername"@) {
            Err(e) => Err(e),
            Ok(preferred_username) => match f_str(m, "inbox"@) {
                Err(e) => Err(e),
                Ok(inbox) => match f_str(m, "outbox"@) {
                    Err(e) => Err(e),
                    Ok(outbox) => match f_str(m, "followers"@) {
                        Err(e) => Err(e),
                        Ok(followers) => match f_str(m, "following"@) {
                            Err(e) => Err(e),
                            Ok(following) => match f_str(m, "liked"@) {
                                Err(e) => Err(e),
                                Ok(liked) => match lookup(m, "publicKey"@) {
                                    None => Ok(
                                        ActorV {
                                            base,
                                            preferred_username,
                                            inbox,
                                            outbox,
                                            followers,
                                            following,
                                            liked,
                                            public_key_info: None,
                                        },
                                    ),
                                    Some(JsonV::Obj(m2)) => match pki_from(m2) {
                                        Err(e) => Err(e),
                                        Ok(k) => Ok(
                                            ActorV {
                                                base,
                                                preferred_username,
                                                inbox,
                                                outbox,
                                                followers,
                                                following,
                                                liked,
                                                public_key_info: Some(k),
                                            },
                                        ),
                                    },
                                    Some(_) => Err(ParseError::Shape),
                                },
                            },
                        },
                    },
                },
            },
        },
    }
}

impl PublicKeyInfo {
    /// The flat wire members of this key information.
    pub fn to_fields(&self) -> (r: Vec<(String, Json)>)
        ensures
            obj_view(r@) == pki_fields(self@),
    {
        let mut out: Vec<(String, Json)> = Vec::new();
        proof {
            crate::json::lemma_obj_view(out@);
            assert(obj_view(out@) =~= Seq::<(Seq<char>, JsonV)>::empty());
        }
        crate::fields::push_field(&mut out, "id", Json::Str(self.id.clone()));
        crate::fields::push_field(&mut out, "owner", Json::Str(self.owner.clone()));
        crate::fields::push_field(&mut out, "publicKeyPem", Json::Str(self.public_key_pem.clone()));
        proof {
            assert(obj_view(out@) =~= pki_fields(self@));
        }
        out
    }

    /// Read public-key information from flat wire members.
    pub fn from_fields(m: &Vec<(String, Json)>) -> (r: Result<PublicKeyInfo, ParseError>)
        ensures
            match r {
                Ok(k) => pki_from(obj_view(m@)) == Ok::<PublicKeyInfoV, ParseError>(k@),
                Err(e) => pki_from(obj_view(m@)) == Err::<PublicKeyInfoV, ParseError>(e),
            },
    {
        let id = match crate::fields::get_req_str(m, "id") {
            Ok(s) => s,
            Err(e) => {
                return Err(e);
            },
        };
        let owner = match crate::fields::get_req_str(m, "owner") {
            Ok(s) => s,
            Err(e) => {
                return Err(e);
            },
        };
        let public_key_pem = match crate::fields::get_req_str(m, "publicKeyPem") {
            Ok(s) => s,
            Err(e) => {
                return Err(e);
            },
        };
        Ok(PublicKeyInfo { id, owner, public_key_pem })
    }
}

impl Actor {
    /// The flat wire members of this actor.
    #[verifier::rlimit(100)]
    pub fn to_fields(&self) -> (r: Vec<(String, Json)>)
        requires
            actor_wf(self@),
        ensures
            obj_view(r@) == actor_fields(self@),
    {
        let mut out = self.base.to_fields();
        crate::fields::push_str_field(&mut out, "preferredUsername", &self.preferred_username);
        crate::fields::push_str_field(&mut out, "inbox", &self.inbox);
        crate::fields::push_str_field(&mut out, "outbox", &self.outbox);
        crate::fields::push_str_field(&mut out, "followers", &self.followers);
        crate::fields::push_str_field(&mut out, "following", &self.following);
        crate::fields::push_str_field(&mut out, "liked", &self.liked);
        match &self.public_key_info {
            Some(k) => {
                let kf = k.to_fields();
                crate::fields::push_field(&mut out, "publicKey", Json::Obj(kf));
            },
            None => {},
        }
        proof {
            let b = obj_fields(self@.base);
            let s1 = put_str("preferredUsername"@, self@.preferred_username);
            let s2 = put_str("inbox"@, self@.inbox);
            let s3 = put_str("outbox"@, self@.outbox);
            let s4 = put_str("followers"@, self@.followers);
            let s5 = put_str("following"@, self@.following);
            let s6 = put_str("liked"@, self@.liked);
            let s7 = match self@.public_key_info {
                Some(kk) => seq![("publicKey"@, JsonV::Obj(pki_fields(kk)))],
                None => Seq::<(Seq<char>, JsonV)>::empty(),
            };
            assert(actor_own(self@) == s1 + s2 + s3 + s4 + s5 + s6 + s7);
            assert(obj_view(out@) == b + s1 + s2 + s3 + s4 + s5 + s6 + s7);
            vstd::seq_lib::lemma_concat_associative(b, s1, s2);
            vstd::seq_lib::lemma_concat_associative(b, s1 + s2, s3);
            vstd::seq_lib::lemma_concat_associative(b, s1 + s2 + s3, s4);
            vstd::seq_lib::lemma_concat_associative(b, s1 + s2 + s3 + s4, s5);
            vstd::seq_lib::lemma_concat_associative(b, s1 + s2 + s3 + s4 + s5, s6);
            vstd::seq_lib::lemma_concat_associative(b, s1 + s2 + s3 + s4 + s5 + s6, s7);
        }
        out
    }

    /// Read an actor from flat wire members.
    pub fn from_fields(m: &Vec<(String, Json)>) -> (r: Result<Actor, ParseError>)
        ensures
            match r {
                Ok(a) => actor_from(obj_view(m@)) == Ok::<ActorV, ParseError>(a@),
                Err(e) => actor_from(obj_view(m@)) == Err::<ActorV, ParseError>(e),
            },
    {
        let base = match Object::from_fields(m) {
            Ok(o) => o,
            Err(e) => {
                return Err(e);
            },
        };
        let preferred_username = match crate::fields::get_str(m, "preferredUsername") {
            Ok(o) => o,
            Err(e) => {
                return Err(e);
            },
        };
        let inbox = match crate::fields::get_str(m, "inbox") {
            Ok(o) => o,
            Err(e) => {
                return Err(e);
            },
        };
        let outbox = match crate::fields::get_str(m, "outbox") {
            Ok(o) => o,
            Err(e) => {
                return Err(e);
            },
        };
        let followers = match crate::fields::get_str(m, "followers") {
            Ok(o) => o,
            Err(e) => {
                return Err(e);
            },
        };
        let following = match crate::fields::get_str(m, "following") {
            Ok(o) => o,
            Err(e) => {
                return Err(e);
            },
        };
        let liked = match crate::fields::get_str(m, "liked") {
            Ok(o) => o,
            Err(e) => {
                return Err(e);
            },
        };
        let public_key_info = match crate::fields::get(m, "publicKey") {
            None => None,
            Some(j) => match j {
                Json::Obj(m2) => match PublicKeyInfo::from_fields(m2) {
                    Ok(k) => Some(k),
                    Err(e) => {
                        return Err(e);
                    },
                },
                _ => {
                    return Err(ParseError::Shape);
                },
            },
        };
        Ok(
            Actor {
                base,
                preferred_username,
                inbox,
                outbox,
                followers,
                following,
                liked,
                public_key_info,
            },
        )
    }
}

#[verifier::external_type_specification]
#[verifier::external_body]
pub struct ExRsaPublicKey(rsa::RsaPublicKey);

#[verifier::external_type_specification]
#[verifier::external_body]
pub struct ExPkcs1Error(rsa::pkcs1::Error);

/// Whether a PKCS#1 PEM text parses as an RSA public key: a function of
/// the text alone.
pub uninterp spec fn rsa_pem_ok(s: Seq<char>) -> bool;

/// Relies on rsa's `DecodeRsaPublicKey::from_pkcs1_pem`: parsing a PKCS#1
/// PEM string is deterministic in the string, succeeding exactly on
/// well-formed key material.
#[verifier::external_body]
fn parse_pkcs1_pem(pem: &str) -> (r: Result<rsa::RsaPublicKey, rsa::pkcs1::Error>)
    ensures
        r is Ok <==> rsa_pem_ok(pem@),
{
    <rsa::RsaPublicKey as rsa::pkcs1::DecodeRsaPublicKey>::from_pkcs1_pem(pem)
}

impl Actor {
    /// The usable public key of this actor, produced by the cryptographic
    /// identity collaborator from the actor's PEM-encoded key material.
    /// Fails with a key-format error exactly when the PEM is malformed.
    pub fn key(&self) -> (r: Result<rsa::RsaPublicKey, KeyError>)
        requires
            self.public_key_info is Some,
        ensures
            self@.public_key_info matches Some(k) ==> ((r is Ok <==> rsa_pem_ok(
                k.public_key_pem,
            )) && (r is Err ==> r == Err::<rsa::RsaPublicKey, KeyError>(KeyError::BadPem))),
    {
        match &self.public_key_info {
            Some(k) => match parse_pkcs1_pem(k.public_key_pem.as_str()) {
                Ok(key) => Ok(key),
                Err(_) => Err(KeyError::BadPem),
            },
            None => vstd::pervasive::unreached(),
        }
    }
}

/// Round trip for public-key information.
pub proof fn lemma_pki_rt(v: PublicKeyInfoV)
    ensures
        pki_from(pki_fields(v)) == Ok::<PublicKeyInfoV, ParseError>(v),
{
    crate::fields::lemma_keys();
    let m = pki_fields(v);
    let s1 = seq![("id"@, JsonV::Str(v.id))];
    let s2 = seq![("owner"@, JsonV::Str(v.owner))];
    let s3 = seq![("publicKeyPem"@, JsonV::Str(v.public_key_pem))];
    assert(m =~= s1 + s2 + s3);
    crate::fields::lemma_lookup_one("id"@, JsonV::Str(v.id), "id"@);
    crate::fields::lemma_lookup_one("owner"@, JsonV::Str(v.owner), "owner"@);
    crate::fields::lemma_lookup_one("publicKeyPem"@, JsonV::Str(v.public_key_pem), "publicKeyPem"@);
    crate::fields::lemma_lookup_one("id"@, JsonV::Str(v.id), "owner"@);
    crate::fields::lemma_lookup_one("id"@, JsonV::Str(v.id), "publicKeyPem"@);
    crate::fields::lemma_lookup_one("owner"@, JsonV::Str(v.owner), "publicKeyPem"@);
    crate::fields::lemma_lookup_append(s1, s2, "id"@);
    crate::fields::lemma_lookup_append(s1 + s2, s3, "id"@);
    crate::fields::lemma_lookup_append(s1, s2, "owner"@);
    crate::fields::lemma_lookup_append(s1 + s2, s3, "owner"@);
    crate::fields::lemma_lookup_append(s1, s2, "publicKeyPem"@);
    crate::fields::lemma_lookup_append(s1 + s2, s3, "publicKeyPem"@);
}

/// What lookup finds among the actor-only members.
pub proof fn lemma_actor_own_lookup(v: ActorV, k: Seq<char>)
    ensures
        lookup(actor_own(v), k) == if k == "preferredUsername"@ {
            crate::fields::os_val(v.preferred_username)
        } else if k == "inbox"@ {
            crate::fields::os_val(v.inbox)
        } else if k == "outbox"@ {
            crate::fields::os_val(v.outbox)
        } else if k == "followers"@ {
            crate::fields::os_val(v.followers)
        } else if k == "following"@ {
            crate::fields::os_val(v.following)
        } else if k == "liked"@ {
            crate::fields::os_val(v.liked)
        } else if k == "publicKey"@ {
            match v.public_key_info {
                Some(kk) => Some(JsonV::Obj(pki_fields(kk))),
                None => None,
            }
        } else {
            None::<JsonV>
        },
{
    crate::fields::lemma_keys();
    let s1 = put_str("preferredUsername"@, v.preferred_username);
    let s2 = put_str("inbox"@, v.inbox);
    let s3 = put_str("outbox"@, v.outbox);
    let s4 = put_str("followers"@, v.followers);
    let s5 = put_str("following"@, v.following);
    let s6 = put_str("liked"@, v.liked);
    let s7 = match v.public_key_info {
        Some(kk) => seq![("publicKey"@, JsonV::Obj(pki_fields(kk)))],
        None => Seq::<(Seq<char>, JsonV)>::empty(),
    };
    assert(actor_own(v) == s1 + s2 + s3 + s4 + s5 + s6 + s7);
    crate::fields::lemma_lookup_put_str("preferredUsername"@, v.preferred_username, k);
    crate::fields::lemma_lookup_put_str("inbox"@, v.inbox, k);
    crate::fields::lemma_lookup_put_str("outbox"@, v.outbox, k);
    crate::fields::lemma_lookup_put_str("followers"@, v.followers, k);
    crate::fields::lemma_lookup_put_str("following"@, v.following, k);
    crate::fields::lemma_lookup_put_str("liked"@, v.liked, k);
    match v.public_key_info {
        Some(kk) => crate::fields::lemma_lookup_one("publicKey"@, JsonV::Obj(pki_fields(kk)), k),
        None => {},
    }
    crate::fields::lemma_lookup_append(s1, s2, k);
    crate::fields::lemma_lookup_append(s1 + s2, s3, k);
    crate::fields::lemma_lookup_append(s1 + s2 + s3, s4, k);
    crate::fields::lemma_lookup_append(s1 + s2 + s3 + s4, s5, k);
    crate::fields::lemma_lookup_append(s1 + s2 + s3 + s4 + s5, s6, k);
    crate::fields::lemma_lookup_append(s1 + s2 + s3 + s4 + s5 + s6, s7, k);
}

/// Round trip: reading back an actor's wire members yields the same actor.
pub proof fn lemma_actor_rt(v: ActorV)
    requires
        actor_wf(v),
    ensures
        actor_from(actor_fields(v)) == Ok::<ActorV, ParseError>(v),
{
    crate::fields::lemma_keys();
    let b = obj_fields(v.base);
    let own = actor_own(v);
    let m = actor_fields(v);
    lemma_actor_own_lookup(v, "type"@);
    lemma_actor_own_lookup(v, "id"@);
    lemma_actor_own_lookup(v, "name"@);
    lemma_actor_own_lookup(v, "url"@);
    lemma_actor_own_lookup(v, "published"@);
    lemma_actor_own_lookup(v, "image"@);
    lemma_actor_own_lookup(v, "attributedTo"@);
    lemma_actor_own_lookup(v, "audience"@);
    lemma_actor_own_lookup(v, "content"@);
    lemma_actor_own_lookup(v, "summary"@);
    lemma_actor_own_lookup(v, "duration"@);
    lemma_actor_own_lookup(v, "preview"@);
    lemma_obj_from_extended(b, own);
    lemma_obj_rt(v.base);
    lemma_obj_lookup(v.base, "preferredUsername"@);
    lemma_obj_lookup(v.base, "inbox"@);
    lemma_obj_lookup(v.base, "outbox"@);
    lemma_obj_lookup(v.base, "followers"@);
    lemma_obj_lookup(v.base, "following"@);
    lemma_obj_lookup(v.base, "liked"@);
    lemma_obj_lookup(v.base, "publicKey"@);
    crate::fields::lemma_lookup_append(b, own, "preferredUsername"@);
    crate::fields::lemma_lookup_append(b, own, "inbox"@);
    crate::fields::lemma_lookup_append(b, own, "outbox"@);
    crate::fields::lemma_lookup_append(b, own, "followers"@);
    crate::fields::lemma_lookup_append(b, own, "following"@);
    crate::fields::lemma_lookup_append(b, own, "liked"@);
    crate::fields::lemma_lookup_append(b, own, "publicKey"@);
    lemma_actor_own_lookup(v, "preferredUsername"@);
    lemma_actor_own_lookup(v, "inbox"@);
    lemma_actor_own_lookup(v, "outbox"@);
    lemma_actor_own_lookup(v, "followers"@);
    lemma_actor_own_lookup(v, "following"@);
    lemma_actor_own_lookup(v, "liked"@);
    lemma_actor_own_lookup(v, "publicKey"@);
    match v.public_key_info {
        Some(kk) => lemma_pki_rt(kk),
        None => {},
    }
}


/// Two member lists that agree on every key an actor reads parse to the
/// same actor.
pub proof fn lemma_actor_from_equiv(m1: Seq<(Seq<char>, JsonV)>, m2: Seq<(Seq<char>, JsonV)>)
    requires
        lookup(m1, "type"@) == lookup(m2, "type"@),
        lookup(m1, "id"@) == lookup(m2, "id"@),
        lookup(m1, "name"@) == lookup(m2, "name"@),
        lookup(m1, "url"@) == lookup(m2, "url"@),
        lookup(m1, "published"@) == lookup(m2, "published"@),
        lookup(m1, "image"@) == lookup(m2, "image"@),
        lookup(m1, "attributedTo"@) == lookup(m2, "attributedTo"@),
        lookup(m1, "audience"@) == lookup(m2, "audience"@),
        lookup(m1, "content"@) == lookup(m2, "content"@),
        lookup(m1, "summary"@) == lookup(m2, "summary"@),
        lookup(m1, "duration"@) == lookup(m2, "duration"@),
        lookup(m1, "preview"@) == lookup(m2, "preview"@),
        lookup(m1, "preferredUsername"@) == lookup(m2, "preferredUsername"@),
        lookup(m1, "inbox"@) == lookup(m2, "inbox"@),
        lookup(m1, "outbox"@) == lookup(m2, "outbox"@),
        lookup(m1, "followers"@) == lookup(m2, "followers"@),
        lookup(m1, "following"@) == lookup(m2, "following"@),
        lookup(m1, "liked"@) == lookup(m2, "liked"@),
        lookup(m1, "publicKey"@) == lookup(m2, "publicKey"@),
    ensures
        actor_from(m1) == actor_from(m2),
{
    crate::model::object::lemma_obj_from_equiv(m1, m2);
    assert(f_str(m1, "preferredUsername"@) == f_str(m2, "preferredUsername"@));
    assert(f_str(m1, "inbox"@) == f_str(m2, "inbox"@));
    assert(f_str(m1, "outbox"@) == f_str(m2, "outbox"@));
    assert(f_str(m1, "followers"@) == f_str(m2, "followers"@));
    assert(f_str(m1, "following"@) == f_str(m2, "following"@));
    assert(f_str(m1, "liked"@) == f_str(m2, "liked"@));
}

} // verus!
