//! Collections: ordered or unordered sets of items flattened onto a base
//! object, and pages over them. The item sequence is omitted from the wire
//! entirely when empty, and `totalItems` only ever appears when set.
use vstd::prelude::*;
use crate::ParseError;
use crate::json::{Json, JsonV, obj_view, arr_view};
use crate::fields::{lookup, f_str, f_req_str, f_usize, put_str, put_usize, vo};
use crate::model::object::{
    Object, ObjectV, obj_wf, obj_fields, obj_from, lemma_obj_lookup, lemma_obj_rt,
    lemma_obj_from_extended,
};

verus! {

broadcast use vstd::seq::group_seq_axioms, vstd::std_specs::vec::group_vec_axioms, vstd::string::group_string_axioms;

/// An unordered collection of items over a base object.
#[derive(Debug)]
pub struct Collection<Item> {
    pub base: Object,
    pub total_items: Option<usize>,
    pub items: Vec<Item>,
}

/// A collection whose members are strictly ordered.
#[derive(Debug)]
pub struct OrderedCollection<CollectionT> {
    pub base: Object,
    pub total_items: Option<usize>,
    pub ordered_items: Vec<CollectionT>,
}

/// One distinct subset of a collection's items; `part_of` names the whole
/// and is the page's one required field.
#[derive(Debug)]
pub struct CollectionPage<BaseCollection> {
    pub base: Collection<BaseCollection>,
    pub part_of: String,
    pub next: Option<String>,
    pub prev: Option<String>,
}

/// One ordered subset of an ordered collection's items.
#[derive(Debug)]
pub struct OrderedCollectionPage<BaseCollection> {
    pub base: OrderedCollection<BaseCollection>,
    pub part_of: String,
    pub next: Option<String>,
    pub prev: Option<String>,
}

/// The mathematical mirror of a collection of objects.
pub ghost struct CollectionV {
    pub base: ObjectV,
    pub total_items: Option<usize>,
    pub items: Seq<ObjectV>,
}

/// The mathematical mirror of a page.
pub ghost struct PageV {
    pub base: CollectionV,
    pub part_of: Seq<char>,
    pub next: Option<Seq<char>>,
    pub prev: Option<Seq<char>>,
}

/// The element-wise view of a vector of objects.
pub open spec fn objs_view(s: Seq<Object>) -> Seq<ObjectV>
    decreases s,
{
    if s.len() == 0 {
        Seq::empty()
    } else {
        seq![s[0]@] + objs_view(s.subrange(1, s.len() as int))
    }
}

/// `objs_view` is the element-wise view.
pub proof fn lemma_objs_view(s: Seq<Object>)
    ensures
        objs_view(s).len() == s.len(),
        forall|i: int| 0 <= i < s.len() ==> objs_view(s)[i] == s[i]@,
    decreases s.len(),
{
    if s.len() > 0 {
        let t = s.subrange(1, s.len() as int);
        lemma_objs_view(t);
        assert(objs_view(s) == seq![s[0]@] + objs_view(t));
        assert forall|i: int| 0 <= i < s.len() implies objs_view(s)[i] == s[i]@ by {
            if i > 0 {
                assert(objs_view(s)[i] == objs_view(t)[i - 1]);
                assert(t[i - 1] == s[i]);
            }
        }
    }
}

impl View for Collection<Object> {
    type V = CollectionV;

    open spec fn view(&self) -> CollectionV {
        CollectionV {
            base: self.base@,
            total_items: self.total_items,
            items: objs_view(self.items@),
        }
    }
}

impl View for OrderedCollection<Object> {
    type V = CollectionV;

    open spec fn view(&self) -> CollectionV {
        CollectionV {
            base: self.base@,
            total_items: self.total_items,
            items: objs_view(self.ordered_items@),
        }
    }
}

impl View for CollectionPage<Object> {
    type V = PageV;

    open spec fn view(&self) -> PageV {
        PageV { base: self.base@, part_of: self.part_of@, next: vo(self.next), prev: vo(self.prev) }
    }
}

impl View for OrderedCollectionPage<Object> {
    type V = PageV;

    open spec fn view(&self) -> PageV {
        PageV { base: self.base@, part_of: self.part_of@, next: vo(self.next), prev: vo(self.prev) }
    }
}

/// Well-formedness of a sequence of object views.
pub open spec fn objs_wf(s: Seq<ObjectV>) -> bool {
    forall|i: int| 0 <= i < s.len() ==> obj_wf(#[trigger] s[i])
}

/// Well-formedness of a collection view.
pub open spec fn coll_wf(v: CollectionV) -> bool {
    obj_wf(v.base) && objs_wf(v.items)
}

/// Well-formedness of a page view.
pub open spec fn page_wf(v: PageV) -> bool {
    coll_wf(v.base)
}

/// A sequence of objects as JSON values.
pub open spec fn objs_json(s: Seq<ObjectV>) -> Seq<JsonV>
    decreases s,
{
    if s.len() == 0 {
        Seq::empty()
    } else {
        seq![JsonV::Obj(obj_fields(s[0]))] + objs_json(s.subrange(1, s.len() as int))
    }
}

/// The element-wise decoding of an array of embedded objects.
pub open spec fn objs_from(a: Seq<JsonV>) -> Result<Seq<ObjectV>, ParseError>
    decreases a, 2int,
{
    if a.len() == 0 {
        Ok(Seq::empty())
    } else {
        match a[0] {
            JsonV::Obj(m) => match obj_from(m) {
                Ok(o) => match objs_from(a.subrange(1, a.len() as int)) {
                    Ok(rest) => Ok(seq![o] + rest),
                    Err(e) => Err(e),
                },
                Err(e) => Err(e),
            },
            _ => Err(ParseError::Shape),
        }
    }
}

/// The collection-only wire members under an item key.
pub open spec fn coll_own_at(key: Seq<char>, total_items: Option<usize>, items: Seq<ObjectV>) -> Seq<
    (Seq<char>, JsonV),
> {
    put_usize("totalItems"@, total_items) + (if items.len() == 0 {
        Seq::<(Seq<char>, JsonV)>::empty()
    } else {
        seq![(key, JsonV::Arr(objs_json(items)))]
    })
}

/// The wire members of an unordered collection.
pub open spec fn coll_fields(v: CollectionV) -> Seq<(Seq<char>, JsonV)> {
    obj_fields(v.base) + coll_own_at("items"@, v.total_items, v.items)
}

/// The wire members of an ordered collection: identical but for the item
/// key.
pub open spec fn ocoll_fields(v: CollectionV) -> Seq<(Seq<char>, JsonV)> {
    obj_fields(v.base) + coll_own_at("orderedItems"@, v.total_items, v.items)
}

/// Read the items under `key`: absent means empty.
pub open spec fn items_under(m: Seq<(Seq<char>, JsonV)>, key: Seq<char>) -> Result<
    Seq<ObjectV>,
    ParseError,
>
    decreases m, 0int,
    via items_under_dec
{
    match lookup(m, key) {
        None => Ok(Seq::empty()),
        Some(JsonV::Arr(a)) => objs_from(a),
        Some(_) => Err(ParseError::Shape),
    }
}

#[via_fn]
proof fn items_under_dec(m: Seq<(Seq<char>, JsonV)>, key: Seq<char>) {
    crate::fields::lemma_lookup_dec(m, key);
    match lookup(m, key) {
        Some(v) => match v {
            JsonV::Arr(a) => {
                assert(decreases_to!(v => a));
            },
            _ => {},
        },
        None => {},
    }
}

/// Read a collection from flat wire members, taking items from `key`.
pub open spec fn coll_from_at(m: Seq<(Seq<char>, JsonV)>, key: Seq<char>) -> Result<
    CollectionV,
    ParseError,
> {
    match obj_from(m) {
        Err(e) => Err(e),
        Ok(base) => match f_usize(m, "totalItems"@) {
            Err(e) => Err(e),
            Ok(total_items) => match items_under(m, key) {
                Err(e) => Err(e),
                Ok(items) => Ok(CollectionV { base, total_items, items }),
            },
        },
    }
}

/// Read an unordered collection.
pub open spec fn coll_from(m: Seq<(Seq<char>, JsonV)>) -> Result<CollectionV, ParseError> {
    coll_from_at(m, "items"@)
}

/// Read an ordered collection.
pub open spec fn ocoll_from(m: Seq<(Seq<char>, JsonV)>) -> Result<CollectionV, ParseError> {
    coll_from_at(m, "orderedItems"@)
}

/// The page-only wire members.
pub open spec fn page_own(v: PageV) -> Seq<(Seq<char>, JsonV)> {
    seq![("partOf"@, JsonV::Str(v.part_of))] + put_str("next"@, v.next) + put_str("prev"@, v.prev)
}

/// The wire members of an unordered collection page.
pub open spec fn page_fields(v: PageV) -> Seq<(Seq<char>, JsonV)> {
    coll_fields(v.base) + page_own(v)
}

/// The wire members of an ordered collection page.
pub open spec fn opage_fields(v: PageV) -> Seq<(Seq<char>, JsonV)> {
    ocoll_fields(v.base) + page_own(v)
}

/// Read a page from flat wire members, taking items from `key`; `partOf`
/// is required.
pub open spec fn page_from_at(m: Seq<(Seq<char>, JsonV)>, key: Seq<char>) -> Result<
    PageV,
    ParseError,
> {
    match coll_from_at(m, key) {
        Err(e) => Err(e),
        Ok(base) => match f_req_str(m, "partOf"@) {
            Err(e) => Err(e),
            Ok(part_of) => match f_str(m, "next"@) {
                Err(e) => Err(e),
                Ok(next) => match f_str(m, "prev"@) {
                    Err(e) => Err(e),
                    Ok(prev) => Ok(PageV { base, part_of, next, prev }),
                },
            },
        },
    }
}

/// Read an unordered collection page.
pub open spec fn page_from(m: Seq<(Seq<char>, JsonV)>) -> Result<PageV, ParseError> {
    page_from_at(m, "items"@)
}

/// Read an ordered collection page.
pub open spec fn opage_from(m: Seq<(Seq<char>, JsonV)>) -> Result<PageV, ParseError> {
    page_from_at(m, "orderedItems"@)
}

/// The wire values of the objects `v[i..]`.
fn objs_to_json(v: &Vec<Object>, i: usize) -> (r: Vec<Json>)
    requires
        i <= v@.len(),
        objs_wf(objs_view(v@).subrange(i as int, v@.len() as int)),
    ensures
        arr_view(r@) == objs_json(objs_view(v@).subrange(i as int, v@.len() as int)),
    decreases v@.len() - i,
{
    proof {
        lemma_objs_view(v@);
    }
    let ghost av = objs_view(v@);
    let ghost t = av.subrange(i as int, av.len() as int);
    if i >= v.len() {
        let r: Vec<Json> = Vec::new();
        proof {
            assert(t =~= Seq::<ObjectV>::empty());
            crate::json::lemma_arr_view(r@);
            assert(arr_view(r@) =~= objs_json(t));
        }
        return r;
    }
    proof {
        assert(t[0] == av[i as int]);
        assert(t.subrange(1, t.len() as int) =~= av.subrange(i + 1, av.len() as int));
        assert(obj_wf(t[0]));
    }
    let first = Json::Obj(v[i].to_fields());
    let mut rest = objs_to_json(v, i + 1);
    let ghost rest0 = rest@;
    rest.insert(0, first);
    proof {
        crate::json::lemma_arr_view(rest@);
        crate::json::lemma_arr_view(rest0);
        assert(arr_view(rest@) =~= seq![JsonV::Obj(obj_fields(t[0]))] + arr_view(rest0));
    }
    rest
}

/// Read the objects of the array `a[i..]`.
fn objs_from_json(a: &Vec<Json>, i: usize) -> (r: Result<Vec<Object>, ParseError>)
    requires
        i <= a@.len(),
    ensures
        match r {
            Ok(v) => objs_from(arr_view(a@).subrange(i as int, a@.len() as int)) == Ok::<
                Seq<ObjectV>,
                ParseError,
            >(objs_view(v@)),
            Err(e) => objs_from(arr_view(a@).subrange(i as int, a@.len() as int)) == Err::<
                Seq<ObjectV>,
                ParseError,
            >(e),
        },
    decreases a@.len() - i,
{
    proof {
        crate::json::lemma_arr_view(a@);
    }
    let ghost av = arr_view(a@);
    let ghost t = av.subrange(i as int, av.len() as int);
    if i >= a.len() {
        let v: Vec<Object> = Vec::new();
        proof {
            assert(t =~= Seq::<JsonV>::empty());
            lemma_objs_view(v@);
            assert(objs_view(v@) =~= Seq::<ObjectV>::empty());
        }
        return Ok(v);
    }
    proof {
        assert(t[0] == av[i as int]);
        assert(t.subrange(1, t.len() as int) =~= av.subrange(i + 1, av.len() as int));
    }
    let first = match &a[i] {
        Json::Obj(m) => match Object::from_fields(m) {
            Ok(o) => o,
            Err(e) => {
                return Err(e);
            },
        },
        _ => {
            return Err(ParseError::Shape);
        },
    };
    match objs_from_json(a, i + 1) {
        Ok(mut rest) => {
            let ghost rest0 = rest@;
            rest.insert(0, first);
            proof {
                lemma_objs_view(rest@);
                lemma_objs_view(rest0);
                assert(objs_view(rest@) =~= seq![first@] + objs_view(rest0));
            }
            Ok(rest)
        },
        Err(e) => Err(e),
    }
}

/// Append the collection-only members under `key`.
fn push_coll_own(
    out: &mut Vec<(String, Json)>,
    key: &str,
    total_items: &Option<usize>,
    items: &Vec<Object>,
)
    requires
        objs_wf(objs_view(items@)),
    ensures
        obj_view(final(out)@) == obj_view(old(out)@) + coll_own_at(
            key@,
            *total_items,
            objs_view(items@),
        ),
{
    crate::fields::push_usize_field(out, "totalItems", total_items);
    proof {
        lemma_objs_view(items@);
        assert(objs_view(items@).subrange(0, objs_view(items@).len() as int) =~= objs_view(
            items@,
        ));
    }
    if items.len() > 0 {
        let ij = objs_to_json(items, 0);
        crate::fields::push_field(out, key, Json::Arr(ij));
    } else {
        proof {
            assert(objs_view(items@) =~= Seq::<ObjectV>::empty());
        }
    }
    proof {
        assert(obj_view(out@) =~= obj_view(old(out)@) + coll_own_at(
            key@,
            *total_items,
            objs_view(items@),
        ));
    }
}

/// Read the collection-only members under `key`.
fn get_coll_own(m: &Vec<(String, Json)>, key: &str) -> (r: Result<
    (Option<usize>, Vec<Object>),
    ParseError,
>)
    ensures
        match r {
            Ok((ti, items)) => f_usize(obj_view(m@), "totalItems"@) == Ok::<
                Option<usize>,
                ParseError,
            >(ti) && items_under(obj_view(m@), key@) == Ok::<Seq<ObjectV>, ParseError>(
                objs_view(items@),
            ),
            Err(e) => f_usize(obj_view(m@), "totalItems"@) == Err::<Option<usize>, ParseError>(e)
                || (f_usize(obj_view(m@), "totalItems"@) is Ok && items_under(obj_view(m@), key@)
                == Err::<Seq<ObjectV>, ParseError>(e)),
        },
{
    let ti = match crate::fields::get_usize(m, "totalItems") {
        Ok(o) => o,
        Err(e) => {
            return Err(e);
        },
    };
    let items = match crate::fields::get(m, key) {
        None => {
            let v: Vec<Object> = Vec::new();
            proof {
                lemma_objs_view(v@);
                assert(objs_view(v@) =~= Seq::<ObjectV>::empty());
            }
            v
        },
        Some(j) => match j {
            Json::Arr(a) => {
                proof {
                    crate::json::lemma_arr_view(a@);
                    assert(arr_view(a@).subrange(0, a@.len() as int) =~= arr_view(a@));
                }
                match objs_from_json(a, 0) {
                    Ok(v) => v,
                    Err(e) => {
                        return Err(e);
                    },
                }
            },
            _ => {
                return Err(ParseError::Shape);
            },
        },
    };
    Ok((ti, items))
}

impl Collection<Object> {
    /// The flat wire members of this collection.
    pub fn to_fields(&self) -> (r: Vec<(String, Json)>)
        requires
            coll_wf(self@),
        ensures
            obj_view(r@) == coll_fields(self@),
    {
        let mut out = self.base.to_fields();
        push_coll_own(&mut out, "items", &self.total_items, &self.items);
        out
    }

    /// Read a collection from flat wire members.
    pub fn from_fields(m: &Vec<(String, Json)>) -> (r: Result<Collection<Object>, ParseError>)
        ensures
            match r {
                Ok(c) => coll_from(obj_view(m@)) == Ok::<CollectionV, ParseError>(c@),
                Err(e) => coll_from(obj_view(m@)) == Err::<CollectionV, ParseError>(e),
            },
    {
        let base = match Object::from_fields(m) {
            Ok(o) => o,
            Err(e) => {
                return Err(e);
            },
        };
        match get_coll_own(m, "items") {
            Ok((total_items, items)) => Ok(Collection { base, total_items, items }),
            Err(e) => Err(e),
        }
    }
}

impl OrderedCollection<Object> {
    /// The flat wire members of this ordered collection.
    pub fn to_fields(&self) -> (r: Vec<(String, Json)>)
        requires
            coll_wf(self@),
        ensures
            obj_view(r@) == ocoll_fields(self@),
    {
        let mut out = self.base.to_fields();
        push_coll_own(&mut out, "orderedItems", &self.total_items, &self.ordered_items);
        out
    }

    /// Read an ordered collection from flat wire members.
    pub fn from_fields(m: &Vec<(String, Json)>) -> (r: Result<
        OrderedCollection<Object>,
        ParseError,
    >)
        ensures
            match r {
                Ok(c) => ocoll_from(obj_view(m@)) == Ok::<CollectionV, ParseError>(c@),
                Err(e) => ocoll_from(obj_view(m@)) == Err::<CollectionV, ParseError>(e),
            },
    {
        let base = match Object::from_fields(m) {
            Ok(o) => o,
            Err(e) => {
                return Err(e);
            },
        };
        match get_coll_own(m, "orderedItems") {
            Ok((total_items, ordered_items)) => Ok(
                OrderedCollection { base, total_items, ordered_items },
            ),
            Err(e) => Err(e),
        }
    }
}

/// Append the page-only members.
fn push_page_own(
    out: &mut Vec<(String, Json)>,
    part_of: &String,
    next: &Option<String>,
    prev: &Option<String>,
)
    ensures
        obj_view(final(out)@) == obj_view(old(out)@) + (seq![
            ("partOf"@, JsonV::Str(part_of@)),
        ] + put_str("next"@, vo(*next)) + put_str("prev"@, vo(*prev))),
{
    crate::fields::push_field(out, "partOf", Json::Str(part_of.clone()));
    crate::fields::push_str_field(out, "next", next);
    crate::fields::push_str_field(out, "prev", prev);
    proof {
        assert(obj_view(out@) =~= obj_view(old(out)@) + (seq![
            ("partOf"@, JsonV::Str(part_of@)),
        ] + put_str("next"@, vo(*next)) + put_str("prev"@, vo(*prev))));
    }
}

impl CollectionPage<Object> {
    /// The flat wire members of this page.
    pub fn to_fields(&self) -> (r: Vec<(String, Json)>)
        requires
            page_wf(self@),
        ensures
            obj_view(r@) == page_fields(self@),
    {
        let mut out = self.base.to_fields();
        push_page_own(&mut out, &self.part_of, &self.next, &self.prev);
        out
    }

    /// Read a page from flat wire members; `partOf` is required.
    pub fn from_fields(m: &Vec<(String, Json)>) -> (r: Result<CollectionPage<Object>, ParseError>)
        ensures
            match r {
                Ok(p) => page_from(obj_view(m@)) == Ok::<PageV, ParseError>(p@),
                Err(e) => page_from(obj_view(m@)) == Err::<PageV, ParseError>(e),
            },
    {
        let base = match Collection::<Object>::from_fields(m) {
            Ok(c) => c,
            Err(e) => {
                return Err(e);
            },
        };
        let part_of = match crate::fields::get_req_str(m, "partOf") {
            Ok(s) => s,
            Err(e) => {
                return Err(e);
            },
        };
        let next = match crate::fields::get_str(m, "next") {
            Ok(o) => o,
            Err(e) => {
                return Err(e);
            },
        };
        let prev = match crate::fields::get_str(m, "prev") {
            Ok(o) => o,
            Err(e) => {
                return Err(e);
            },
        };
        Ok(CollectionPage { base, part_of, next, prev })
    }
}

impl OrderedCollectionPage<Object> {
    /// The flat wire members of this ordered page.
    pub fn to_fields(&self) -> (r: Vec<(String, Json)>)
        requires
            page_wf(self@),
        ensures
            obj_view(r@) == opage_fields(self@),
    {
        let mut out = self.base.to_fields();
        push_page_own(&mut out, &self.part_of, &self.next, &self.prev);
        out
    }

    /// Read an ordered page from flat wire members; `partOf` is required.
    pub fn from_fields(m: &Vec<(String, Json)>) -> (r: Result<
        OrderedCollectionPage<Object>,
        ParseError,
    >)
        ensures
            match r {
                Ok(p) => opage_from(obj_view(m@)) == Ok::<PageV, ParseError>(p@),
                Err(e) => opage_from(obj_view(m@)) == Err::<PageV, ParseError>(e),
            },
    {
        let base = match OrderedCollection::<Object>::from_fields(m) {
            Ok(c) => c,
            Err(e) => {
                return Err(e);
            },
        };
        let part_of = match crate::fields::get_req_str(m, "partOf") {
            Ok(s) => s,
            Err(e) => {
                return Err(e);
            },
        };
        let next = match crate::fields::get_str(m, "next") {
            Ok(o) => o,
            Err(e) => {
                return Err(e);
            },
        };
        let prev = match crate::fields::get_str(m, "prev") {
            Ok(o) => o,
            Err(e) => {
                return Err(e);
            },
        };
        Ok(OrderedCollectionPage { base, part_of, next, prev })
    }
}

/// Round trip for a sequence of embedded objects.
pub proof fn lemma_objs_rt(s: Seq<ObjectV>)
    requires
        objs_wf(s),
    ensures
        objs_from(objs_json(s)) == Ok::<Seq<ObjectV>, ParseError>(s),
    decreases s.len(),
{
    if s.len() == 0 {
        assert(objs_json(s) =~= Seq::<JsonV>::empty());
        assert(s =~= Seq::<ObjectV>::empty());
    } else {
        let t = s.subrange(1, s.len() as int);
        let w = objs_json(s);
        assert(w == seq![JsonV::Obj(obj_fields(s[0]))] + objs_json(t));
        assert(w[0] == JsonV::Obj(obj_fields(s[0])));
        assert(w.subrange(1, w.len() as int) =~= objs_json(t));
        lemma_obj_rt(s[0]);
        assert(objs_wf(t)) by {
            assert(forall|i: int| 0 <= i < t.len() ==> t[i] == s[i + 1]);
        }
        lemma_objs_rt(t);
        assert(seq![s[0]] + t =~= s);
    }
}

/// What lookup finds among the collection-only members.
pub proof fn lemma_coll_own_lookup(
    key: Seq<char>,
    total_items: Option<usize>,
    items: Seq<ObjectV>,
    k: Seq<char>,
)
    requires
        key == "items"@ || key == "orderedItems"@,
    ensures
        lookup(coll_own_at(key, total_items, items), k) == if k == "totalItems"@ {
            crate::fields::ousize_val(total_items)
        } else if k == key {
            if items.len() == 0 {
                None
            } else {
                Some(JsonV::Arr(objs_json(items)))
            }
        } else {
            None::<JsonV>
        },
{
    crate::fields::lemma_keys();
    let s1 = put_usize("totalItems"@, total_items);
    let s2 = if items.len() == 0 {
        Seq::<(Seq<char>, JsonV)>::empty()
    } else {
        seq![(key, JsonV::Arr(objs_json(items)))]
    };
    assert(coll_own_at(key, total_items, items) == s1 + s2);
    crate::fields::lemma_lookup_put_usize("totalItems"@, total_items, k);
    if items.len() > 0 {
        crate::fields::lemma_lookup_one(key, JsonV::Arr(objs_json(items)), k);
    }
    crate::fields::lemma_lookup_append(s1, s2, k);
}

/// Round trip for a collection, generic in the item key.
proof fn lemma_coll_rt_at(v: CollectionV, key: Seq<char>)
    requires
        coll_wf(v),
        key == "items"@ || key == "orderedItems"@,
    ensures
        coll_from_at(obj_fields(v.base) + coll_own_at(key, v.total_items, v.items), key) == Ok::<
            CollectionV,
            ParseError,
        >(v),
{
    crate::fields::lemma_keys();
    let b = obj_fields(v.base);
    let own = coll_own_at(key, v.total_items, v.items);
    let m = b + own;
    lemma_coll_own_lookup(key, v.total_items, v.items, "type"@);
    lemma_coll_own_lookup(key, v.total_items, v.items, "id"@);
    lemma_coll_own_lookup(key, v.total_items, v.items, "name"@);
    lemma_coll_own_lookup(key, v.total_items, v.items, "url"@);
    lemma_coll_own_lookup(key, v.total_items, v.items, "published"@);
    lemma_coll_own_lookup(key, v.total_items, v.items, "image"@);
    lemma_coll_own_lookup(key, v.total_items, v.items, "attributedTo"@);
    lemma_coll_own_lookup(key, v.total_items, v.items, "audience"@);
    lemma_coll_own_lookup(key, v.total_items, v.items, "content"@);
    lemma_coll_own_lookup(key, v.total_items, v.items, "summary"@);
    lemma_coll_own_lookup(key, v.total_items, v.items, "duration"@);
    lemma_coll_own_lookup(key, v.total_items, v.items, "preview"@);
    lemma_obj_from_extended(b, own);
    lemma_obj_rt(v.base);
    lemma_obj_lookup(v.base, "totalItems"@);
    lemma_obj_lookup(v.base, key);
    crate::fields::lemma_lookup_append(b, own, "totalItems"@);
    crate::fields::lemma_lookup_append(b, own, key);
    lemma_coll_own_lookup(key, v.total_items, v.items, "totalItems"@);
    lemma_coll_own_lookup(key, v.total_items, v.items, key);
    match v.total_items {
        Some(n) => {
            crate::num::lemma_dec_digits(n as nat);
        },
        None => {},
    }
    if v.items.len() > 0 {
        lemma_objs_rt(v.items);
    } else {
        assert(v.items =~= Seq::<ObjectV>::empty());
    }
}

/// Round trip: reading back an unordered collection's wire members yields
/// the same collection.
pub proof fn lemma_coll_rt(v: CollectionV)
    requires
        coll_wf(v),
    ensures
        coll_from(coll_fields(v)) == Ok::<CollectionV, ParseError>(v),
{
    crate::fields::lemma_keys();
    lemma_coll_rt_at(v, "items"@);
}

/// Round trip: reading back an ordered collection's wire members yields
/// the same collection.
pub proof fn lemma_ocoll_rt(v: CollectionV)
    requires
        coll_wf(v),
    ensures
        ocoll_from(ocoll_fields(v)) == Ok::<CollectionV, ParseError>(v),
{
    crate::fields::lemma_keys();
    lemma_coll_rt_at(v, "orderedItems"@);
}

/// What lookup finds among the page-only members.
pub proof fn lemma_page_own_lookup(v: PageV, k: Seq<char>)
    ensures
        lookup(page_own(v), k) == if k == "partOf"@ {
            Some(JsonV::Str(v.part_of))
        } else if k == "next"@ {
            crate::fields::os_val(v.next)
        } else if k == "prev"@ {
            crate::fields::os_val(v.prev)
        } else {
            None::<JsonV>
        },
{
    crate::fields::lemma_keys();
    let s1 = seq![("partOf"@, JsonV::Str(v.part_of))];
    let s2 = put_str("next"@, v.next);
    let s3 = put_str("prev"@, v.prev);
    assert(page_own(v) == s1 + s2 + s3);
    crate::fields::lemma_lookup_one("partOf"@, JsonV::Str(v.part_of), k);
    crate::fields::lemma_lookup_put_str("next"@, v.next, k);
    crate::fields::lemma_lookup_put_str("prev"@, v.prev, k);
    crate::fields::lemma_lookup_append(s1, s2, k);
    crate::fields::lemma_lookup_append(s1 + s2, s3, k);
}

/// Round trip for a page, generic in the item key.
#[verifier::rlimit(100)]
proof fn lemma_page_rt_at(v: PageV, key: Seq<char>)
    requires
        page_wf(v),
        key == "items"@ || key == "orderedItems"@,
    ensures
        page_from_at(
            (obj_fields(v.base.base) + coll_own_at(key, v.base.total_items, v.base.items))
                + page_own(v),
            key,
        ) == Ok::<PageV, ParseError>(v),
{
    crate::fields::lemma_keys();
    let ob = obj_fields(v.base.base);
    let cown = coll_own_at(key, v.base.total_items, v.base.items);
    let cf = ob + cown;
    let pown = page_own(v);
    let m = cf + pown;
    // the base object's parse ignores both extensions
    lemma_page_own_lookup(v, "type"@);
    lemma_page_own_lookup(v, "id"@);
    lemma_page_own_lookup(v, "name"@);
    lemma_page_own_lookup(v, "url"@);
    lemma_page_own_lookup(v, "published"@);
    lemma_page_own_lookup(v, "image"@);
    lemma_page_own_lookup(v, "attributedTo"@);
    lemma_page_own_lookup(v, "audience"@);
    lemma_page_own_lookup(v, "content"@);
    lemma_page_own_lookup(v, "summary"@);
    lemma_page_own_lookup(v, "duration"@);
    lemma_page_own_lookup(v, "preview"@);
    lemma_page_own_lookup(v, "totalItems"@);
    lemma_page_own_lookup(v, key);
    lemma_coll_own_lookup(key, v.base.total_items, v.base.items, "type"@);
    lemma_coll_own_lookup(key, v.base.total_items, v.base.items, "id"@);
    lemma_coll_own_lookup(key, v.base.total_items, v.base.items, "name"@);
    lemma_coll_own_lookup(key, v.base.total_items, v.base.items, "url"@);
    lemma_coll_own_lookup(key, v.base.total_items, v.base.items, "published"@);
    lemma_coll_own_lookup(key, v.base.total_items, v.base.items, "image"@);
    lemma_coll_own_lookup(key, v.base.total_items, v.base.items, "attributedTo"@);
    lemma_coll_own_lookup(key, v.base.total_items, v.base.items, "audience"@);
    lemma_coll_own_lookup(key, v.base.total_items, v.base.items, "content"@);
    lemma_coll_own_lookup(key, v.base.total_items, v.base.items, "summary"@);
    lemma_coll_own_lookup(key, v.base.total_items, v.base.items, "duration"@);
    lemma_coll_own_lookup(key, v.base.total_items, v.base.items, "preview"@);
    lemma_coll_own_lookup(key, v.base.total_items, v.base.items, "totalItems"@);
    lemma_coll_own_lookup(key, v.base.total_items, v.base.items, key);
    lemma_coll_own_lookup(key, v.base.total_items, v.base.items, "partOf"@);
    lemma_coll_own_lookup(key, v.base.total_items, v.base.items, "next"@);
    lemma_coll_own_lookup(key, v.base.total_items, v.base.items, "prev"@);
    lemma_page_own_lookup(v, "partOf"@);
    lemma_page_own_lookup(v, "next"@);
    lemma_page_own_lookup(v, "prev"@);
    // obj_from over the full list equals obj_from over the base fields
    vstd::seq_lib::lemma_concat_associative(ob, cown, pown);
    let ext = cown + pown;
    assert(m == ob + ext);
    assert forall|kk: Seq<char>|
        kk == "type"@ || kk == "id"@ || kk == "name"@ || kk == "url"@ || kk == "published"@ || kk
            == "image"@ || kk == "attributedTo"@ || kk == "audience"@ || kk == "content"@ || kk
            == "summary"@ || kk == "duration"@ || kk == "preview"@ implies lookup(ext, kk)
        is None by {
        crate::fields::lemma_lookup_append(cown, pown, kk);
        lemma_coll_own_lookup(key, v.base.total_items, v.base.items, kk);
        lemma_page_own_lookup(v, kk);
    }
    lemma_obj_from_extended(ob, ext);
    lemma_obj_rt(v.base.base);
    // the collection's own members are found despite the page extension
    lemma_obj_lookup(v.base.base, "totalItems"@);
    lemma_obj_lookup(v.base.base, key);
    lemma_obj_lookup(v.base.base, "partOf"@);
    lemma_obj_lookup(v.base.base, "next"@);
    lemma_obj_lookup(v.base.base, "prev"@);
    crate::fields::lemma_lookup_append(cf, pown, "totalItems"@);
    crate::fields::lemma_lookup_append(cf, pown, key);
    crate::fields::lemma_lookup_append(cf, pown, "partOf"@);
    crate::fields::lemma_lookup_append(cf, pown, "next"@);
    crate::fields::lemma_lookup_append(cf, pown, "prev"@);
    crate::fields::lemma_lookup_append(ob, cown, "totalItems"@);
    crate::fields::lemma_lookup_append(ob, cown, key);
    crate::fields::lemma_lookup_append(ob, cown, "partOf"@);
    crate::fields::lemma_lookup_append(ob, cown, "next"@);
    crate::fields::lemma_lookup_append(ob, cown, "prev"@);
    match v.base.total_items {
        Some(n) => {
            crate::num::lemma_dec_digits(n as nat);
        },
        None => {},
    }
    if v.base.items.len() > 0 {
        lemma_objs_rt(v.base.items);
    } else {
        assert(v.base.items =~= Seq::<ObjectV>::empty());
    }
}

/// Round trip: reading back an unordered page's wire members yields the
/// same page.
pub proof fn lemma_page_rt(v: PageV)
    requires
        page_wf(v),
    ensures
        page_from(page_fields(v)) == Ok::<PageV, ParseError>(v),
{
    lemma_page_rt_at(v, "items"@);
}

/// Round trip: reading back an ordered page's wire members yields the
/// same page.
pub proof fn lemma_opage_rt(v: PageV)
    requires
        page_wf(v),
    ensures
        opage_from(opage_fields(v)) == Ok::<PageV, ParseError>(v),
{
    lemma_page_rt_at(v, "orderedItems"@);
}


/// Two member lists that agree on every key a collection reads parse to
/// the same collection.
pub proof fn lemma_coll_from_at_equiv(
    m1: Seq<(Seq<char>, JsonV)>,
    m2: Seq<(Seq<char>, JsonV)>,
    key: Seq<char>,
)
    requires
        lookup(m1, "type"@) == lookup(m2, "type"@),
        lookup(m1, "id"@) == lookup(m2, "id"@),
        lookup(m1, "name"@) == lookup(m2, "name"@),
        lookup(m1, "url"@) == lookup(m2, "url"@),
        lookup(m1, "published"@) == lookup(m2, "published"@),
        lookup(m1, "image"@) == lookup(m2, "image"@),
        lookup(m1, "attributedTo"@) == lookup(m2, "attributedTo"@),
        lookup(m1, "audience"@) == lookup(m2, "audience"@),
        lookup(m1, "content"@) == lookup(m2, "content"@),
        lookup(m1, "summary"@) == lookup(m2, "summary"@),
        lookup(m1, "duration"@) == lookup(m2, "duration"@),
        lookup(m1, "preview"@) == lookup(m2, "preview"@),
        lookup(m1, "totalItems"@) == lookup(m2, "totalItems"@),
        lookup(m1, key) == lookup(m2, key),
    ensures
        coll_from_at(m1, key) == coll_from_at(m2, key),
{
    crate::model::object::lemma_obj_from_equiv(m1, m2);
    assert(f_usize(m1, "totalItems"@) == f_usize(m2, "totalItems"@));
    assert(items_under(m1, key) == items_under(m2, key));
}

/// Two member lists that agree on every key a page reads parse to the
/// same page.
pub proof fn lemma_page_from_at_equiv(
    m1: Seq<(Seq<char>, JsonV)>,
    m2: Seq<(Seq<char>, JsonV)>,
    key: Seq<char>,
)
    requires
        lookup(m1, "type"@) == lookup(m2, "type"@),
        lookup(m1, "id"@) == lookup(m2, "id"@),
        lookup(m1, "name"@) == lookup(m2, "name"@),
        lookup(m1, "url"@) == lookup(m2, "url"@),
        lookup(m1, "published"@) == lookup(m2, "published"@),
        lookup(m1, "image"@) == lookup(m2, "image"@),
        lookup(m1, "attributedTo"@) == lookup(m2, "attributedTo"@),
        lookup(m1, "audience"@) == lookup(m2, "audience"@),
        lookup(m1, "content"@) == lookup(m2, "content"@),
        lookup(m1, "summary"@) == lookup(m2, "summary"@),
        lookup(m1, "duration"@) == lookup(m2, "duration"@),
        lookup(m1, "preview"@) == lookup(m2, "preview"@),
        lookup(m1, "totalItems"@) == lookup(m2, "totalItems"@),
        lookup(m1, key) == lookup(m2, key),
        lookup(m1, "partOf"@) == lookup(m2, "partOf"@),
        lookup(m1, "next"@) == lookup(m2, "next"@),
        lookup(m1, "prev"@) == lookup(m2, "prev"@),
    ensures
        page_from_at(m1, key) == page_from_at(m2, key),
{
    lemma_coll_from_at_equiv(m1, m2, key);
    assert(f_req_str(m1, "partOf"@) == f_req_str(m2, "partOf"@));
    assert(f_str(m1, "next"@) == f_str(m2, "next"@));
    assert(f_str(m1, "prev"@) == f_str(m2, "prev"@));
}

} // verus!
