//! Activities: an embedded base object flattened together with the fields
//! describing an action, and the intransitive variant that embeds a whole
//! activity.
use vstd::prelude::*;
use crate::ParseError;
use crate::json::{Json, JsonV, obj_view};
use crate::fields::{lookup, f_str, f_str_arr, put_str, vo, strs_view, strs_json};
use crate::model::object::{
    Object, ObjectV, obj_wf, obj_fields, obj_from, lemma_obj_lookup, lemma_obj_rt,
    lemma_obj_from_extended,
};
use crate::model::actor::{Actor, ActorV, actor_wf, actor_fields, actor_from, lemma_actor_rt};

verus! {

broadcast use vstd::seq::group_seq_axioms, vstd::std_specs::vec::group_vec_axioms, vstd::string::group_string_axioms;

/// Some form of action: a base object plus the parties and free-form
/// qualifiers of the action.
#[derive(Debug)]
pub struct Activity {
    pub base: Object,
    pub actor: Option<Actor>,
    pub object: Option<Object>,
    pub target: Option<Object>,
    pub result: Option<String>,
    pub to: Option<Vec<String>>,
    pub origin: Option<String>,
    pub instrument: Option<String>,
}

/// An intransitive action: structurally an activity on the wire; using its
/// `object` field is documented as inappropriate but not prevented.
#[derive(Debug)]
pub struct IntransitiveActivity {
    pub base: Activity,
}

/// The mathematical mirror of [`Activity`].
pub ghost struct ActivityV {
    pub base: ObjectV,
    pub actor: Option<ActorV>,
    pub object: Option<ObjectV>,
    pub target: Option<ObjectV>,
    pub result: Option<Seq<char>>,
    pub to: Option<Seq<Seq<char>>>,
    pub origin: Option<Seq<char>>,
    pub instrument: Option<Seq<char>>,
}

impl View for Activity {
    type V = ActivityV;

    open spec fn view(&self) -> ActivityV {
        ActivityV {
            base: self.base@,
            actor: match self.actor {
                Some(a) => Some(a@),
                None => None,
            },
            object: match self.object {
                Some(o) => Some(o@),
                None => None,
            },
            target: match self.target {
                Some(o) => Some(o@),
                None => None,
            },
            result: vo(self.result),
            to: match self.to {
                Some(v) => Some(strs_view(v@)),
                None => None,
            },
            origin: vo(self.origin),
            instrument: vo(self.instrument),
        }
    }
}

impl View for IntransitiveActivity {
    type V = ActivityV;

    open spec fn view(&self) -> ActivityV {
        self.base@
    }
}

/// Well-formedness of an activity view.
pub open spec fn activity_wf(v: ActivityV) -> bool {
    &&& obj_wf(v.base)
    &&& match v.actor {
        Some(a) => actor_wf(a),
        None => true,
    }
    &&& match v.object {
        Some(o) => obj_wf(o),
        None => true,
    }
    &&& match v.target {
        Some(o) => obj_wf(o),
        None => true,
    }
}

/// The activity-only wire members, in declaration order.
pub open spec fn activity_own(v: ActivityV) -> Seq<(Seq<char>, JsonV)> {
    (match v.actor {
        Some(a) => seq![("actor"@, JsonV::Obj(actor_fields(a)))],
        None => Seq::<(Seq<char>, JsonV)>::empty(),
    }) + (match v.object {
        Some(o) => seq![("object"@, JsonV::Obj(obj_fields(o)))],
        None => Seq::<(Seq<char>, JsonV)>::empty(),
    }) + (match v.target {
        Some(o) => seq![("target"@, JsonV::Obj(obj_fields(o)))],
        None => Seq::<(Seq<char>, JsonV)>::empty(),
    }) + put_str("result"@, v.result) + (match v.to {
        Some(ss) => seq![("to"@, JsonV::Arr(strs_json(ss)))],
        None => Seq::<(Seq<char>, JsonV)>::empty(),
    }) + put_str("origin"@, v.origin) + put_str("instrument"@, v.instrument)
}

/// The wire members of an activity: the base object's flattened together
/// with the activity's own.
pub open spec fn activity_fields(v: ActivityV) -> Seq<(Seq<char>, JsonV)> {
    obj_fields(v.base) + activity_own(v)
}

/// An optional embedded actor under `k`.
pub open spec fn actor_under(m: Seq<(Seq<char>, JsonV)>, k: Seq<char>) -> Result<
    Option<ActorV>,
    ParseError,
> {
    match lookup(m, k) {
        None => Ok(None),
        Some(JsonV::Obj(m2)) => match actor_from(m2) {
            Ok(a) => Ok(Some(a)),
            Err(e) => Err(e),
        },
        Some(_) => Err(ParseError::Shape),
    }
}

/// An optional embedded plain object under `k`.
pub open spec fn plain_obj_under(m: Seq<(Seq<char>, JsonV)>, k: Seq<char>) -> Result<
    Option<ObjectV>,
    ParseError,
> {
    match lookup(m, k) {
        None => Ok(None),
        Some(JsonV::Obj(m2)) => match obj_from(m2) {
            Ok(o) => Ok(Some(o)),
            Err(e) => Err(e),
        },
        Some(_) => Err(ParseError::Shape),
    }
}

/// Read an activity from flat wire members.
pub open spec fn activity_from(m: Seq<(Seq<char>, JsonV)>) -> Result<ActivityV, ParseError> {
    match obj_from(m) {
        Err(e) => Err(e),
        Ok(base) => match actor_under(m, "actor"@) {
            Err(e) => Err(e),
            Ok(actor) => match plain_obj_under(m, "object"@) {
                Err(e) => Err(e),
                Ok(object) => match plain_obj_under(m, "target"@) {
                    Err(e) => Err(e),
                    Ok(target) => match f_str(m, "result"@) {
                        Err(e) => Err(e),
                        Ok(result) => match f_str_arr(m, "to"@) {
                            Err(e) => Err(e),
                            Ok(to) => match f_str(m, "origin"@) {
                                Err(e) => Err(e),
                                Ok(origin) => match f_str(m, "instrument"@) {
                                    Err(e) => Err(e),
                                    Ok(instrument) => Ok(
                                        ActivityV {
                                            base,
                                            actor,
                                            object,
                                            target,
                                            result,
                                            to,
                                            origin,
                                            instrument,
                                        },
                                    ),
                                },
                            },
                        },
                    },
                },
            },
        },
    }
}

impl Activity {
    /// The flat wire members of this activity.
    #[verifier::rlimit(100)]
    pub fn to_fields(&self) -> (r: Vec<(String, Json)>)
        requires
            activity_wf(self@),
        ensures
            obj_view(r@) == activity_fields(self@),
    {
        let mut out = self.base.to_fields();
        match &self.actor {
            Some(a) => {
                let af = a.to_fields();
                crate::fields::push_field(&mut out, "actor", Json::Obj(af));
            },
            None => {},
        }
        match &self.object {
            Some(o) => {
                let of = o.to_fields();
                crate::fields::push_field(&mut out, "object", Json::Obj(of));
            },
            None => {},
        }
        match &self.target {
            Some(o) => {
                let tf = o.to_fields();
                crate::fields::push_field(&mut out, "target", Json::Obj(tf));
            },
            None => {},
        }
        crate::fields::push_str_field(&mut out, "result", &self.result);
        match &self.to {
            Some(v) => {
                let tj = crate::fields::strs_to_json(v);
                crate::fields::push_field(&mut out, "to", Json::Arr(tj));
            },
            None => {},
        }
        crate::fields::push_str_field(&mut out, "origin", &self.origin);
        crate::fields::push_str_field(&mut out, "instrument", &self.instrument);
        proof {
            let b = obj_fields(self@.base);
            let s1 = match self@.actor {
                Some(a) => seq![("actor"@, JsonV::Obj(actor_fields(a)))],
                None => Seq::<(Seq<char>, JsonV)>::empty(),
            };
            let s2 = match self@.object {
                Some(o) => seq![("object"@, JsonV::Obj(obj_fields(o)))],
                None => Seq::<(Seq<char>, JsonV)>::empty(),
            };
            let s3 = match self@.target {
                Some(o) => seq![("target"@, JsonV::Obj(obj_fields(o)))],
                None => Seq::<(Seq<char>, JsonV)>::empty(),
            };
            let s4 = put_str("result"@, self@.result);
            let s5 = match self@.to {
                Some(ss) => seq![("to"@, JsonV::Arr(strs_json(ss)))],
                None => Seq::<(Seq<char>, JsonV)>::empty(),
            };
            let s6 = put_str("origin"@, self@.origin);
            let s7 = put_str("instrument"@, self@.instrument);
            assert(activity_own(self@) == s1 + s2 + s3 + s4 + s5 + s6 + s7);
            assert(obj_view(out@) == b + s1 + s2 + s3 + s4 + s5 + s6 + s7);
            vstd::seq_lib::lemma_concat_associative(b, s1, s2);
            vstd::seq_lib::lemma_concat_associative(b, s1 + s2, s3);
            vstd::seq_lib::lemma_concat_associative(b, s1 + s2 + s3, s4);
            vstd::seq_lib::lemma_concat_associative(b, s1 + s2 + s3 + s4, s5);
            vstd::seq_lib::lemma_concat_associative(b, s1 + s2 + s3 + s4 + s5, s6);
            vstd::seq_lib::lemma_concat_associative(b, s1 + s2 + s3 + s4 + s5 + s6, s7);
        }
        out
    }

    /// Read an activity from flat wire members.
    #[verifier::rlimit(100)]
    pub fn from_fields(m: &Vec<(String, Json)>) -> (r: Result<Activity, ParseError>)
        ensures
            match r {
                Ok(a) => activity_from(obj_view(m@)) == Ok::<ActivityV, ParseError>(a@),
                Err(e) => activity_from(obj_view(m@)) == Err::<ActivityV, ParseError>(e),
            },
    {
        let base = match Object::from_fields(m) {
            Ok(o) => o,
            Err(e) => {
                return Err(e);
            },
        };
        let actor = match crate::fields::get(m, "actor") {
            None => None,
            Some(j) => match j {
                Json::Obj(m2) => match Actor::from_fields(m2) {
                    Ok(a) => Some(a),
                    Err(e) => {
                        return Err(e);
                    },
                },
                _ => {
                    return Err(ParseError::Shape);
                },
            },
        };
        let object = match crate::fields::get(m, "object") {
            None => None,
            Some(j) => match j {
                Json::Obj(m2) => match Object::from_fields(m2) {
                    Ok(o) => Some(o),
                    Err(e) => {
                        return Err(e);
                    },
                },
                _ => {
                    return Err(ParseError::Shape);
                },
            },
        };
        let target = match crate::fields::get(m, "target") {
            None => None,
            Some(j) => match j {
                Json::Obj(m2) => match Object::from_fields(m2) {
                    Ok(o) => Some(o),
                    Err(e) => {
                        return Err(e);
                    },
                },
                _ => {
                    return Err(ParseError::Shape);
                },
            },
        };
        let result = match crate::fields::get_str(m, "result") {
            Ok(o) => o,
            Err(e) => {
                return Err(e);
            },
        };
        let to = match crate::fields::get_str_arr(m, "to") {
            Ok(o) => o,
            Err(e) => {
                return Err(e);
            },
        };
        let origin = match crate::fields::get_str(m, "origin") {
            Ok(o) => o,
            Err(e) => {
                return Err(e);
            },
        };
        let instrument = match crate::fields::get_str(m, "instrument") {
            Ok(o) => o,
            Err(e) => {
                return Err(e);
            },
        };
        Ok(Activity { base, actor, object, target, result, to, origin, instrument })
    }
}

impl IntransitiveActivity {
    /// The flat wire members: exactly those of the embedded activity.
    pub fn to_fields(&self) -> (r: Vec<(String, Json)>)
        requires
            activity_wf(self@),
        ensures
            obj_view(r@) == activity_fields(self@),
    {
        self.base.to_fields()
    }

    /// Read an intransitive activity from flat wire members.
    pub fn from_fields(m: &Vec<(String, Json)>) -> (r: Result<IntransitiveActivity, ParseError>)
        ensures
            match r {
                Ok(a) => activity_from(obj_view(m@)) == Ok::<ActivityV, ParseError>(a@),
                Err(e) => activity_from(obj_view(m@)) == Err::<ActivityV, ParseError>(e),
            },
    {
        match Activity::from_fields(m) {
            Ok(a) => Ok(IntransitiveActivity { base: a }),
            Err(e) => Err(e),
        }
    }
}

/// What lookup finds among the activity-only members.
pub proof fn lemma_activity_own_lookup(v: ActivityV, k: Seq<char>)
    ensures
        lookup(activity_own(v), k) == if k == "actor"@ {
            match v.actor {
                Some(a) => Some(JsonV::Obj(actor_fields(a))),
                None => None,
            }
        } else if k == "object"@ {
            match v.object {
                Some(o) => Some(JsonV::Obj(obj_fields(o))),
                None => None,
            }
        } else if k == "target"@ {
            match v.target {
                Some(o) => Some(JsonV::Obj(obj_fields(o))),
                None => None,
            }
        } else if k == "result"@ {
            crate::fields::os_val(v.result)
        } else if k == "to"@ {
            match v.to {
                Some(ss) => Some(JsonV::Arr(strs_json(ss))),
                None => None,
            }
        } else if k == "origin"@ {
            crate::fields::os_val(v.origin)
        } else if k == "instrument"@ {
            crate::fields::os_val(v.instrument)
        } else {
            None::<JsonV>
        },
{
    crate::fields::lemma_keys();
    let s1 = match v.actor {
        Some(a) => seq![("actor"@, JsonV::Obj(actor_fields(a)))],
        None => Seq::<(Seq<char>, JsonV)>::empty(),
    };
    let s2 = match v.object {
        Some(o) => seq![("object"@, JsonV::Obj(obj_fields(o)))],
        None => Seq::<(Seq<char>, JsonV)>::empty(),
    };
    let s3 = match v.target {
        Some(o) => seq![("target"@, JsonV::Obj(obj_fields(o)))],
        None => Seq::<(Seq<char>, JsonV)>::empty(),
    };
    let s4 = put_str("result"@, v.result);
    let s5 = match v.to {
        Some(ss) => seq![("to"@, JsonV::Arr(strs_json(ss)))],
        None => Seq::<(Seq<char>, JsonV)>::empty(),
    };
    let s6 = put_str("origin"@, v.origin);
    let s7 = put_str("instrument"@, v.instrument);
    assert(activity_own(v) == s1 + s2 + s3 + s4 + s5 + s6 + s7);
    match v.actor {
        Some(a) => crate::fields::lemma_lookup_one("actor"@, JsonV::Obj(actor_fields(a)), k),
        None => {},
    }
    match v.object {
        Some(o) => crate::fields::lemma_lookup_one("object"@, JsonV::Obj(obj_fields(o)), k),
        None => {},
    }
    match v.target {
        Some(o) => crate::fields::lemma_lookup_one("target"@, JsonV::Obj(obj_fields(o)), k),
        None => {},
    }
    crate::fields::lemma_lookup_put_str("result"@, v.result, k);
    match v.to {
        Some(ss) => crate::fields::lemma_lookup_one("to"@, JsonV::Arr(strs_json(ss)), k),
        None => {},
    }
    crate::fields::lemma_lookup_put_str("origin"@, v.origin, k);
    crate::fields::lemma_lookup_put_str("instrument"@, v.instrument, k);
    crate::fields::lemma_lookup_append(s1, s2, k);
    crate::fields::lemma_lookup_append(s1 + s2, s3, k);
    crate::fields::lemma_lookup_append(s1 + s2 + s3, s4, k);
    crate::fields::lemma_lookup_append(s1 + s2 + s3 + s4, s5, k);
    crate::fields::lemma_lookup_append(s1 + s2 + s3 + s4 + s5, s6, k);
    crate::fields::lemma_lookup_append(s1 + s2 + s3 + s4 + s5 + s6, s7, k);
}

/// Round trip: reading back an activity's wire members yields the same
/// activity.
#[verifier::rlimit(100)]
pub proof fn lemma_activity_rt(v: ActivityV)
    requires
        activity_wf(v),
    ensures
        activity_from(activity_fields(v)) == Ok::<ActivityV, ParseError>(v),
{
    crate::fields::lemma_keys();
    let b = obj_fields(v.base);
    let own = activity_own(v);
    let m = activity_fields(v);
    lemma_activity_own_lookup(v, "type"@);
    lemma_activity_own_lookup(v, "id"@);
    lemma_activity_own_lookup(v, "name"@);
    lemma_activity_own_lookup(v, "url"@);
    lemma_activity_own_lookup(v, "published"@);
    lemma_activity_own_lookup(v, "image"@);
    lemma_activity_own_lookup(v, "attributedTo"@);
    lemma_activity_own_lookup(v, "audience"@);
    lemma_activity_own_lookup(v, "content"@);
    lemma_activity_own_lookup(v, "summary"@);
    lemma_activity_own_lookup(v, "duration"@);
    lemma_activity_own_lookup(v, "preview"@);
    lemma_obj_from_extended(b, own);
    lemma_obj_rt(v.base);
    lemma_obj_lookup(v.base, "actor"@);
    lemma_obj_lookup(v.base, "object"@);
    lemma_obj_lookup(v.base, "target"@);
    lemma_obj_lookup(v.base, "result"@);
    lemma_obj_lookup(v.base, "to"@);
    lemma_obj_lookup(v.base, "origin"@);
    lemma_obj_lookup(v.base, "instrument"@);
    crate::fields::lemma_lookup_append(b, own, "actor"@);
    crate::fields::lemma_lookup_append(b, own, "object"@);
    crate::fields::lemma_lookup_append(b, own, "target"@);
    crate::fields::lemma_lookup_append(b, own, "result"@);
    crate::fields::lemma_lookup_append(b, own, "to"@);
    crate::fields::lemma_lookup_append(b, own, "origin"@);
    crate::fields::lemma_lookup_append(b, own, "instrument"@);
    lemma_activity_own_lookup(v, "actor"@);
    lemma_activity_own_lookup(v, "object"@);
    lemma_activity_own_lookup(v, "target"@);
    lemma_activity_own_lookup(v, "result"@);
    lemma_activity_own_lookup(v, "to"@);
    lemma_activity_own_lookup(v, "origin"@);
    lemma_activity_own_lookup(v, "instrument"@);
    match v.actor {
        Some(a) => lemma_actor_rt(a),
        None => {},
    }
    match v.object {
        Some(o) => lemma_obj_rt(o),
        None => {},
    }
    match v.target {
        Some(o) => lemma_obj_rt(o),
        None => {},
    }
    match v.to {
        Some(ss) => crate::fields::lemma_strs_rt(ss),
        None => {},
    }
}


/// Two member lists that agree on every key an activity reads parse to
/// the same activity.
pub proof fn lemma_activity_from_equiv(m1: Seq<(Seq<char>, JsonV)>, m2: Seq<(Seq<char>, JsonV)>)
    requires
        lookup(m1, "type"@) == lookup(m2, "type"@),
        lookup(m1, "id"@) == lookup(m2, "id"@),
        lookup(m1, "name"@) == lookup(m2, "name"@),
        lookup(m1, "url"@) == lookup(m2, "url"@),
        lookup(m1, "published"@) == lookup(m2, "published"@),
        lookup(m1, "image"@) == lookup(m2, "image"@),
        lookup(m1, "attributedTo"@) == lookup(m2, "attributedTo"@),
        lookup(m1, "audience"@) == lookup(m2, "audience"@),
        lookup(m1, "content"@) == lookup(m2, "content"@),
        lookup(m1, "summary"@) == lookup(m2, "summary"@),
        lookup(m1, "duration"@) == lookup(m2, "duration"@),
        lookup(m1, "preview"@) == lookup(m2, "preview"@),
        lookup(m1, "actor"@) == lookup(m2, "actor"@),
        lookup(m1, "object"@) == lookup(m2, "object"@),
        lookup(m1, "target"@) == lookup(m2, "target"@),
        lookup(m1, "result"@) == lookup(m2, "result"@),
        lookup(m1, "to"@) == lookup(m2, "to"@),
        lookup(m1, "origin"@) == lookup(m2, "origin"@),
        lookup(m1, "instrument"@) == lookup(m2, "instrument"@),
    ensures
        activity_from(m1) == activity_from(m2),
{
    crate::model::object::lemma_obj_from_equiv(m1, m2);
    assert(actor_under(m1, "actor"@) == actor_under(m2, "actor"@));
    assert(plain_obj_under(m1, "object"@) == plain_obj_under(m2, "object"@));
    assert(plain_obj_under(m1, "target"@) == plain_obj_under(m2, "target"@));
    assert(f_str(m1, "result"@) == f_str(m2, "result"@));
    assert(f_str_arr(m1, "to"@) == f_str_arr(m2, "to"@));
    assert(f_str(m1, "origin"@) == f_str(m2, "origin"@));
    assert(f_str(m1, "instrument"@) == f_str(m2, "instrument"@));
}

} // verus!
