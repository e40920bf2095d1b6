//! Typed objects by their identifiers, of whatever type can be built from the
//! fields of an object: one object, a list of objects, or the objects that a
//! predicate picks.
use vstd::prelude::*;
use crate::collection::{AsPBXObject, PBXObjectCollection};
use crate::error::{PBXError, PBXErrorView};
use crate::text::texts_view;
use crate::value::{field_object, PBXHashMap, PBXHashMapView, PBXValue};

verus! {

/// The typed object with the identifier `id`: nothing when there is no such
/// object or when it cannot be built.
pub open spec fn built<'a, T: AsPBXObject<'a>>(
    objects: PBXHashMapView,
    id: Seq<char>,
) -> Option<T::V> {
    match field_object(objects, id) {
        Some(fields) => match T::described_by(objects, id, fields) {
            Ok(x) => Some(x),
            Err(_) => None,
        },
        None => None,
    }
}

/// The typed objects with the identifiers `ids`, in order: an identifier that
/// leads to nothing is left out.
pub open spec fn built_all<'a, T: AsPBXObject<'a>>(
    objects: PBXHashMapView,
    ids: Seq<Seq<char>>,
) -> Seq<T::V>
    decreases ids.len(),
{
    if ids.len() == 0 {
        Seq::empty()
    } else {
        match built::<T>(objects, ids.last()) {
            Some(x) => built_all::<T>(objects, ids.drop_last()).push(x),
            None => built_all::<T>(objects, ids.drop_last()),
        }
    }
}

/// The typed objects among the first `n` entries of `objects` that were
/// picked, in order: `picked` says of each entry whether it was.
pub open spec fn built_picked<'a, T: AsPBXObject<'a>>(
    objects: PBXHashMapView,
    picked: Seq<bool>,
    n: int,
) -> Seq<T::V>
    decreases n,
{
    if n <= 0 || n > objects.len() || n > picked.len() {
        Seq::empty()
    } else {
        let before = built_picked::<T>(objects, picked, n - 1);
        if picked[n - 1] {
            match built::<T>(objects, objects[n - 1].0) {
                Some(x) => before.push(x),
                None => before,
            }
        } else {
            before
        }
    }
}

/// The mathematical values of a list of typed objects.
pub open spec fn views_of<T: View>(s: Seq<T>) -> Seq<T::V> {
    Seq::new(s.len(), |i: int| s[i]@)
}

/// The objects of two lists of identifiers, one after the other, are those of
/// the two lists joined.
pub proof fn lemma_built_all_of_joined<'a, T: AsPBXObject<'a>>(
    objects: PBXHashMapView,
    a: Seq<Seq<char>>,
    b: Seq<Seq<char>>,
)
    ensures
        built_all::<T>(objects, a + b) == built_all::<T>(objects, a) + built_all::<T>(objects, b),
    decreases b.len(),
{
    if b.len() == 0 {
        assert(a + b =~= a);
        assert(built_all::<T>(objects, a) + built_all::<T>(objects, b) =~= built_all::<T>(
            objects,
            a,
        ));
    } else {
        lemma_built_all_of_joined::<T>(objects, a, b.drop_last());
        assert((a + b).drop_last() =~= a + b.drop_last());
        assert((a + b).last() == b.last());
        match built::<T>(objects, b.last()) {
            Some(x) => {
                assert((built_all::<T>(objects, a) + built_all::<T>(objects, b.drop_last())).push(x)
                    =~= built_all::<T>(objects, a) + built_all::<T>(objects, b.drop_last()).push(
                    x,
                ));
            },
            None => {},
        }
    }
}

/// A dangling identifier in a list of identifiers is passed over: the objects
/// of the list are those of the list without it.
pub proof fn lemma_built_all_skips_dangling<'a, T: AsPBXObject<'a>>(
    objects: PBXHashMapView,
    before: Seq<Seq<char>>,
    dangling: Seq<char>,
    after: Seq<Seq<char>>,
)
    requires
        field_object(objects, dangling) is None,
    ensures
        built_all::<T>(objects, before + seq![dangling] + after) == built_all::<T>(
            objects,
            before + after,
        ),
{
    lemma_built_all_of_joined::<T>(objects, before + seq![dangling], after);
    lemma_built_all_of_joined::<T>(objects, before, seq![dangling]);
    lemma_built_all_of_joined::<T>(objects, before, after);
    assert(seq![dangling].drop_last() =~= Seq::<Seq<char>>::empty());
    assert(built_all::<T>(objects, seq![dangling]) =~= Seq::empty()) by {
        reveal_with_fuel(built_all, 2);
    }
    assert(built_all::<T>(objects, before) + Seq::empty() =~= built_all::<T>(objects, before));
}

/// What was picked among the first `n` entries does not depend on what is said
/// of the entries after them.
pub proof fn lemma_built_picked_prefix<'a, T: AsPBXObject<'a>>(
    objects: PBXHashMapView,
    a: Seq<bool>,
    b: Seq<bool>,
    n: int,
)
    requires
        n <= a.len(),
        n <= b.len(),
        forall|k: int| 0 <= k < n ==> a[k] == b[k],
    ensures
        built_picked::<T>(objects, a, n) == built_picked::<T>(objects, b, n),
    decreases n,
{
    if n > 0 && n <= objects.len() {
        lemma_built_picked_prefix::<T>(objects, a, b, n - 1);
    }
}

impl PBXObjectCollection {
    /// The typed object with the identifier `key`: nothing when there is no
    /// such object or when it cannot be built as a `T`.
    pub fn get<'a, T: AsPBXObject<'a>>(&'a self, key: &str) -> (r: Option<T>)
        ensures
            match r {
                Some(x) => built::<T>(self@, key@) == Some(x@),
                None => built::<T>(self@, key@) is None,
            },
    {
        match self.object(key) {
            Some(fields) => match T::as_pbx_object(String::from_str(key), fields, self) {
                Ok(x) => Some(x),
                Err(_) => None,
            },
            None => None,
        }
    }

    /// As [`PBXObjectCollection::get`], with an error that names `key` when it
    /// leads to nothing.
    pub fn try_get<'a, T: AsPBXObject<'a>>(&'a self, key: &str) -> (r: Result<T, PBXError>)
        ensures
            match r {
                Ok(x) => built::<T>(self@, key@) == Some(x@),
                Err(e) => built::<T>(self@, key@) is None && e@ == (
                PBXErrorView::DanglingReference { id: key@ }),
            },
    {
        match self.get::<T>(key) {
            Some(x) => Ok(x),
            None => Err(PBXError::DanglingReference { id: String::from_str(key) }),
        }
    }

    /// The typed objects with the identifiers `keys`, in order. An identifier
    /// that leads to nothing is passed over.
    pub fn get_vec<'a, T: AsPBXObject<'a>>(&'a self, keys: &Vec<String>) -> (r: Vec<T>)
        ensures
            views_of(r@) == built_all::<T>(self@, texts_view(keys@)),
    {
        let ghost all = texts_view(keys@);
        let mut out: Vec<T> = Vec::new();
        let mut i: usize = 0;
        assert(views_of(out@) =~= Seq::empty());
        assert(all.take(0) =~= Seq::empty());
        while i < keys.len()
            invariant
                i <= keys.len(),
                all == texts_view(keys@),
                views_of(out@) == built_all::<T>(self@, all.take(i as int)),
            decreases keys.len() - i,
        {
            assert(all.take(i + 1).drop_last() =~= all.take(i as int));
            assert(all.take(i + 1).last() == keys@[i as int]@);
            let ghost before = views_of(out@);
            match self.get::<T>(keys[i].as_str()) {
                Some(x) => {
                    out.push(x);
                    assert(views_of(out@) =~= before.push(x@));
                },
                None => {},
            }
            i += 1;
        }
        assert(all.take(keys.len() as int) =~= all);
        out
    }

    /// The typed objects that `predict` picks, in the order of the
    /// collection. `predict` is asked of every entry that is an object, with
    /// its identifier and its fields; an entry that is picked and cannot be
    /// built as a `T` is passed over.
    pub fn get_vec_by<'a, T: AsPBXObject<'a>, F: Fn(
        &String,
        &PBXHashMap,
    ) -> bool>(&'a self, predict: F) -> (r: Vec<T>)
        requires
            forall|id: &String, fields: &PBXHashMap| call_requires(predict, (id, fields)),
        ensures
            exists|picked: Seq<bool>|
                {
                    &&& picked.len() == self@.len()
                    &&& forall|i: int|
                        0 <= i < self.0.entries@.len() ==> match #[trigger] self.0.entries@[i].1 {
                            PBXValue::Object(fields) => call_ensures(
                                predict,
                                (&self.0.entries@[i].0, &fields),
                                picked[i],
                            ),
                            _ => !picked[i],
                        }
                    &&& views_of(r@) == built_picked::<T>(self@, picked, self@.len() as int)
                },
    {
        let mut out: Vec<T> = Vec::new();
        let ghost mut picked: Seq<bool> = Seq::empty();
        let mut i: usize = 0;
        assert(views_of(out@) =~= Seq::empty());
        while i < self.0.entries.len()
            invariant
                i <= self.0.entries.len(),
                self.0.entries@.len() == self@.len(),
                picked.len() == i,
                forall|id: &String, fields: &PBXHashMap| call_requires(predict, (id, fields)),
                forall|k: int|
                    0 <= k < i ==> match #[trigger] self.0.entries@[k].1 {
                        PBXValue::Object(fields) => call_ensures(
                            predict,
                            (&self.0.entries@[k].0, &fields),
                            picked[k],
                        ),
                        _ => !picked[k],
                    },
                views_of(out@) == built_picked::<T>(self@, picked, i as int),
            decreases self.0.entries.len() - i,
        {
            let ghost before = views_of(out@);
            let ghost picked_before = picked;
            assert(self@[i as int] == (self.0.entries@[i as int].0@, self.0.entries@[i as int].1@));
            let wanted = match &self.0.entries[i].1 {
                PBXValue::Object(fields) => predict(&self.0.entries[i].0, fields),
                _ => false,
            };
            proof {
                picked = picked.push(wanted);
                lemma_built_picked_prefix::<T>(self@, picked_before, picked, i as int);
            }
            if wanted {
                match self.get::<T>(self.0.entries[i].0.as_str()) {
                    Some(x) => {
                        out.push(x);
                        assert(views_of(out@) =~= before.push(x@));
                    },
                    None => {},
                }
            }
            i += 1;
        }
        assert(self@.len() == picked.len());
        out
    }
}

} // verus!
