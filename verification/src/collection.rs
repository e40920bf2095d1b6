//! The collection of the objects of a project file, and how references are
//! followed through it.
//!
//! Every object is stored once, under its identifier. A typed object holds the
//! objects that it refers to, so building one follows references, and the
//! objects of a file may refer to each other in a circle. The identifiers of
//! the objects that are being built form the trail. A reference is not
//! followed when the object it names is on the trail already: it then counts
//! as dangling. So that every walk ends, a reference is not followed either
//! when the trail is as long as the collection; on a trail of different
//! objects of the collection this holds back no reference to a further object
//! ([`lemma_trail_is_shorter`]).
//!
//! A collection that was read from a file is well formed
//! ([`collection_well_formed`]): every entry is an object, and no identifier
//! comes twice. The queries are defined on any collection; an identifier is
//! looked for from the front.
use vstd::prelude::*;
use crate::error::{PBXError, PBXErrorView, PBXValueKind};
use crate::kind::{PBXObjectKind, PBXObjectKindView};
use crate::text::same_text;
use crate::value::{
    field_error, field_index, field_object, field_value, fields_well_formed, has_field,
    lemma_field_index, PBXHashMap, PBXHashMapView, PBXValue, PBXValueView,
};

verus! {

/// The objects of a project file, by identifier, in the order of the file.
#[derive(Debug)]
pub struct PBXObjectCollection(pub PBXHashMap);

impl View for PBXObjectCollection {
    type V = PBXHashMapView;

    open spec fn view(&self) -> PBXHashMapView {
        self.0@
    }
}

/// A typed object that can be built from the fields of an object of the
/// collection.
pub trait AsPBXObject<'a>: Sized + View {
    /// What the fields `fields` of the object `id` describe, with what they
    /// refer to taken from `objects`: the mathematical value of the typed
    /// object, or the error that says why there is none.
    spec fn described_by(
        objects: PBXHashMapView,
        id: Seq<char>,
        fields: PBXHashMapView,
    ) -> Result<Self::V, PBXErrorView>;

    /// The typed object that the fields `value` of the object `id` describe,
    /// with what it refers to taken from `objects`.
    fn as_pbx_object(
        id: String,
        value: &'a PBXHashMap,
        objects: &'a PBXObjectCollection,
    ) -> (r: Result<Self, PBXError>)
        ensures
            match r {
                Ok(x) => Self::described_by(objects@, id@, value@) == Ok::<Self::V, PBXErrorView>(
                    x@,
                ),
                Err(e) => Self::described_by(objects@, id@, value@) == Err::<Self::V, PBXErrorView>(
                    e@,
                ),
            },
    ;
}

/// The identifiers of the objects that are being built, the innermost first.
pub struct Trail<'a> {
    /// The identifier of the object that is being built.
    pub id: &'a str,
    /// The objects around it.
    pub rest: Option<&'a Trail<'a>>,
}

/// The identifiers on a trail, the outermost first.
pub open spec fn trail_view(t: Option<&Trail>) -> Seq<Seq<char>>
    decreases t,
{
    match t {
        None => Seq::empty(),
        Some(step) => trail_view(step.rest).push(step.id@),
    }
}

/// Whether the trail `t` holds at least `n` identifiers.
pub fn trail_reaches(t: Option<&Trail>, n: usize) -> (r: bool)
    ensures
        r == (trail_view(t).len() >= n),
    decreases t,
{
    match t {
        None => n == 0,
        Some(step) => n == 0 || trail_reaches(step.rest, n - 1),
    }
}

/// Whether the identifier `id` is on the trail `t`.
pub fn trail_has(t: Option<&Trail>, id: &str) -> (r: bool)
    ensures
        r == trail_view(t).contains(id@),
    decreases t,
{
    match t {
        None => false,
        Some(step) => {
            let here = same_text(step.id, id);
            let before = trail_has(step.rest, id);
            proof {
                let s = trail_view(step.rest);
                let f = s.push(step.id@);
                if here {
                    assert(f[s.len() as int] == id@);
                }
                if before {
                    let k = choose|k: int| 0 <= k < s.len() && s[k] == id@;
                    assert(f[k] == id@);
                }
                if f.contains(id@) {
                    let k = choose|k: int| 0 <= k < f.len() && f[k] == id@;
                    if k < s.len() {
                        assert(s[k] == id@);
                    }
                }
            }
            here || before
        },
    }
}

/// Whether the reference `id` is followed from the trail `trail`.
pub open spec fn can_follow(objects: PBXHashMapView, id: Seq<char>, trail: Seq<Seq<char>>) -> bool {
    trail.len() < objects.len() && !trail.contains(id)
}

/// The trail on which the object `id` itself is built: the object alone, if
/// it is one of the collection. An identifier that the collection does not
/// hold is not on the trail, so that it takes no place of an object that the
/// collection does hold.
pub open spec fn start_trail(objects: PBXHashMapView, id: Seq<char>) -> Seq<Seq<char>> {
    if has_field(objects, id) {
        seq![id]
    } else {
        Seq::empty()
    }
}

/// Every entry of `objects` is an object, no two entries have the same
/// identifier, and no object has two fields with the same key, at any depth.
pub open spec fn collection_well_formed(objects: PBXHashMapView) -> bool {
    &&& fields_well_formed(objects)
    &&& forall|i: int| 0 <= i < objects.len() ==> (#[trigger] objects[i]).1 is Object
}

/// On a trail of different objects of the collection, a reference to a further
/// object of the collection is followed: the bound on the length of the
/// trail holds back no such reference.
pub proof fn lemma_trail_is_shorter(objects: PBXHashMapView, id: Seq<char>, trail: Seq<Seq<char>>)
    requires
        trail.no_duplicates(),
        forall|i: int| 0 <= i < trail.len() ==> has_field(objects, #[trigger] trail[i]),
        has_field(objects, id),
        !trail.contains(id),
    ensures
        can_follow(objects, id, trail),
{
    let walk = trail.push(id);
    let places = Seq::new(walk.len(), |i: int| field_index(objects, walk[i]));
    assert forall|i: int| 0 <= i < places.len() implies 0 <= #[trigger] places[i] < objects.len()
        && objects[places[i]].0 == walk[i] by {
        lemma_field_index(objects, walk[i]);
        if i < trail.len() {
            assert(walk[i] == trail[i]);
        }
    }
    assert forall|i: int, j: int|
        0 <= i < places.len() && 0 <= j < places.len() && i != j implies places[i] != places[j] by {
        if places[i] == places[j] {
            assert(walk[i] == walk[j]);
            if i < trail.len() && j < trail.len() {
                assert(trail[i] == trail[j]);
            } else if i < trail.len() {
                assert(trail[i] == id);
            } else {
                assert(trail[j] == id);
            }
        }
    }
    places.unique_seq_to_set();
    vstd::set_lib::lemma_int_range(0, objects.len() as int);
    assert(places.to_set().subset_of(vstd::set_lib::set_int_range(0, objects.len() as int))) by {
        assert forall|x: int| places.to_set().contains(x) implies vstd::set_lib::set_int_range(
            0,
            objects.len() as int,
        ).contains(x) by {
            let k = choose|k: int| 0 <= k < places.len() && places[k] == x;
            assert(0 <= places[k] < objects.len());
        }
    }
    vstd::set_lib::lemma_len_subset(
        places.to_set(),
        vstd::set_lib::set_int_range(0, objects.len() as int),
    );
}

/// The kind that the `isa` field of an object gives: the kind that the field
/// holds. A string in its place is no kind that the library models, whatever
/// it says: it gives the unknown kind with that text. An error when the field
/// is missing or holds neither.
pub open spec fn object_kind(fields: PBXHashMapView) -> Result<PBXObjectKindView, PBXErrorView> {
    match field_value(fields, "isa"@) {
        Some(PBXValueView::Kind(k)) => Ok(k),
        Some(PBXValueView::String(s)) => Ok(PBXObjectKindView::Unknown(s)),
        _ => Err(field_error(fields, "isa"@, PBXValueKind::Kind)),
    }
}

/// The kind of the object that `value` is, if `value` is an object that has
/// one.
pub open spec fn value_kind_of(value: PBXValueView) -> Option<PBXObjectKindView> {
    match value {
        PBXValueView::Object(fields) => match object_kind(fields) {
            Ok(k) => Some(k),
            Err(_) => None,
        },
        _ => None,
    }
}

/// The kind that the `isa` field of `fields` gives.
pub fn kind_of_object(fields: &PBXHashMap) -> (r: Result<PBXObjectKind, PBXError>)
    ensures
        match r {
            Ok(k) => object_kind(fields@) == Ok::<_, PBXErrorView>(k@),
            Err(e) => object_kind(fields@) == Err::<PBXObjectKindView, _>(e@),
        },
{
    match fields.try_get_value("isa")? {
        PBXValue::Kind(k) => Ok(k.clone()),
        PBXValue::String(s) => Ok(PBXObjectKind::Unknown(s.clone())),
        other => Err(PBXError::TypeMismatch { expected: PBXValueKind::Kind, actual: other.kind() }),
    }
}

/// The kind of the object that `value` is, if `value` is an object that has
/// one.
pub fn kind_of_value(value: &PBXValue) -> (r: Option<PBXObjectKind>)
    ensures
        match r {
            Some(k) => value_kind_of(value@) == Some(k@),
            None => value_kind_of(value@) is None,
        },
{
    match value {
        PBXValue::Object(fields) => match kind_of_object(fields) {
            Ok(k) => Some(k),
            Err(_) => None,
        },
        _ => None,
    }
}

impl Default for PBXObjectCollection {
    fn default() -> (r: Self)
        ensures
            r@ == Seq::<(Seq<char>, PBXValueView)>::empty(),
    {
        PBXObjectCollection(PBXHashMap::empty())
    }
}

impl PBXObjectCollection {
    /// A collection of the objects `objects`.
    pub fn new(objects: PBXHashMap) -> (r: PBXObjectCollection)
        ensures
            r.0 == objects,
    {
        PBXObjectCollection(objects)
    }

    /// The number of entries.
    pub fn len(&self) -> (r: usize)
        ensures
            r == self@.len(),
    {
        self.0.len()
    }

    /// The kind of the object with the identifier `id`, if there is such an
    /// object and it has a kind: an unknown kind for an `isa` name that is not
    /// in the table of kinds.
    pub fn kind_of(&self, id: &str) -> (r: Option<PBXObjectKind>)
        ensures
            match r {
                Some(k) => field_value(self@, id@) is Some && value_kind_of(
                    field_value(self@, id@)->Some_0,
                ) == Some(k@),
                None => field_value(self@, id@) is None || value_kind_of(
                    field_value(self@, id@)->Some_0,
                ) is None,
            },
    {
        match self.0.get_value(id) {
            Some(value) => kind_of_value(value),
            None => None,
        }
    }

    /// The fields of the object with the identifier `id`, if there is one.
    pub fn object(&self, id: &str) -> (r: Option<&PBXHashMap>)
        ensures
            match r {
                Some(fields) => field_object(self@, id@) == Some(fields@),
                None => field_object(self@, id@) is None,
            },
    {
        self.0.get_object(id)
    }
}

} // verus!
