//! The values of a project file: strings, numbers, booleans, kinds, arrays and
//! objects, as a tree.
use vstd::prelude::*;
use crate::error::{PBXError, PBXErrorView, PBXValueKind};
use crate::kind::{PBXObjectKind, PBXObjectKindView};
use crate::text::{opt_int, opt_text, opt_texts, same_text};

verus! {

/// A value of a project file.
#[derive(Debug)]
pub enum PBXValue {
    /// A string, quoted or bare in the file.
    String(String),
    /// An object: fields with their values.
    Object(PBXHashMap),
    /// An array of values.
    Vec(PBXVec),
    /// A whole number.
    Number(isize),
    /// `YES` or `NO`.
    Bool(bool),
    /// The kind of an object.
    Kind(PBXObjectKind),
    /// Nothing.
    Null,
}

/// The fields of an object, in the order in which their keys first came.
///
/// A key is looked for from the front, so that of two fields with one key
/// only the first would be seen; the functions of this type never make a
/// second.
#[derive(Debug)]
pub struct PBXHashMap {
    /// The fields, in order.
    pub entries: Vec<(String, PBXValue)>,
}

/// An array of values.
#[derive(Debug)]
pub struct PBXVec(pub Vec<PBXValue>);

/// The mathematical value of a [`PBXValue`].
pub enum PBXValueView {
    String(Seq<char>),
    Object(Seq<(Seq<char>, PBXValueView)>),
    Vec(Seq<PBXValueView>),
    Number(int),
    Bool(bool),
    Kind(PBXObjectKindView),
    Null,
}

/// The mathematical value of a [`PBXHashMap`]: its fields, in order.
pub type PBXHashMapView = Seq<(Seq<char>, PBXValueView)>;

/// The mathematical value of `v`.
pub open spec fn value_view(v: PBXValue) -> PBXValueView
    decreases v,
{
    match v {
        PBXValue::String(s) => PBXValueView::String(s@),
        PBXValue::Object(m) => PBXValueView::Object(entries_view(m.entries@)),
        PBXValue::Vec(a) => PBXValueView::Vec(values_view(a.0@)),
        PBXValue::Number(n) => PBXValueView::Number(n as int),
        PBXValue::Bool(b) => PBXValueView::Bool(b),
        PBXValue::Kind(k) => PBXValueView::Kind(k@),
        PBXValue::Null => PBXValueView::Null,
    }
}

/// The mathematical value of a list of fields.
pub open spec fn entries_view(s: Seq<(String, PBXValue)>) -> PBXHashMapView
    decreases s,
{
    Seq::new(
        s.len(),
        |i: int|
            if 0 <= i < s.len() {
                (s[i].0@, value_view(s[i].1))
            } else {
                (Seq::empty(), PBXValueView::Null)
            },
    )
}

/// The mathematical value of a list of values.
pub open spec fn values_view(s: Seq<PBXValue>) -> Seq<PBXValueView>
    decreases s,
{
    Seq::new(
        s.len(),
        |i: int|
            if 0 <= i < s.len() {
                value_view(s[i])
            } else {
                PBXValueView::Null
            },
    )
}

impl View for PBXValue {
    type V = PBXValueView;

    open spec fn view(&self) -> PBXValueView {
        value_view(*self)
    }
}

impl View for PBXHashMap {
    type V = PBXHashMapView;

    open spec fn view(&self) -> PBXHashMapView {
        entries_view(self.entries@)
    }
}

impl View for PBXVec {
    type V = Seq<PBXValueView>;

    open spec fn view(&self) -> Seq<PBXValueView> {
        values_view(self.0@)
    }
}


/// The variant of a value.
pub open spec fn value_kind(v: PBXValueView) -> PBXValueKind {
    match v {
        PBXValueView::String(_) => PBXValueKind::String,
        PBXValueView::Object(_) => PBXValueKind::Object,
        PBXValueView::Vec(_) => PBXValueKind::Vec,
        PBXValueView::Number(_) => PBXValueKind::Number,
        PBXValueView::Bool(_) => PBXValueKind::Bool,
        PBXValueView::Kind(_) => PBXValueKind::Kind,
        PBXValueView::Null => PBXValueKind::Null,
    }
}

/// The index of the first field of `m`, from `from` on, whose key is `key`;
/// `m.len()` when there is none.
pub open spec fn field_index_from(m: PBXHashMapView, key: Seq<char>, from: int) -> int
    decreases m.len() - from,
{
    if from < 0 || from >= m.len() {
        m.len() as int
    } else if m[from].0 == key {
        from
    } else {
        field_index_from(m, key, from + 1)
    }
}

/// The index of the first field of `m` whose key is `key`; `m.len()` when
/// there is none.
pub open spec fn field_index(m: PBXHashMapView, key: Seq<char>) -> int {
    field_index_from(m, key, 0)
}

/// Whether `m` has a field with the key `key`.
pub open spec fn has_field(m: PBXHashMapView, key: Seq<char>) -> bool {
    field_index(m, key) < m.len()
}

/// The value of the field `key` of `m`: that of the first field with this key.
pub open spec fn field_value(m: PBXHashMapView, key: Seq<char>) -> Option<PBXValueView> {
    if has_field(m, key) {
        Some(m[field_index(m, key)].1)
    } else {
        None
    }
}

/// `m` with the field `key` set to `value`: in the place of the first field
/// with this key, or at the end when there is none.
pub open spec fn with_field(
    m: PBXHashMapView,
    key: Seq<char>,
    value: PBXValueView,
) -> PBXHashMapView {
    if has_field(m, key) {
        m.update(field_index(m, key), (key, value))
    } else {
        m.push((key, value))
    }
}

/// `m` without the first field whose key is `key`.
pub open spec fn without_field(m: PBXHashMapView, key: Seq<char>) -> PBXHashMapView {
    if has_field(m, key) {
        m.remove(field_index(m, key))
    } else {
        m
    }
}

/// The fields of `list` set one after the other on `m`: of two fields with
/// one key, the later one stays.
pub open spec fn with_fields(m: PBXHashMapView, list: PBXHashMapView) -> PBXHashMapView
    decreases list.len(),
{
    if list.len() == 0 {
        m
    } else {
        with_field(with_fields(m, list.drop_last()), list.last().0, list.last().1)
    }
}

/// No two fields of `m` have the same key.
pub open spec fn unique_keys(m: PBXHashMapView) -> bool {
    forall|i: int, j: int| 0 <= i < j < m.len() ==> m[i].0 != m[j].0
}

/// No object inside `v`, at any depth, has two fields with the same key.
pub open spec fn keys_unique_in(v: PBXValueView) -> bool
    decreases v,
{
    match v {
        PBXValueView::Object(m) => unique_keys(m) && forall|i: int|
            0 <= i < m.len() ==> keys_unique_in(#[trigger] m[i].1),
        PBXValueView::Vec(s) => forall|i: int| 0 <= i < s.len() ==> keys_unique_in(#[trigger] s[i]),
        _ => true,
    }
}

/// What [`keys_unique_in`] says of an array: it holds of each element.
pub proof fn lemma_keys_unique_in_elements(s: Seq<PBXValueView>)
    ensures
        keys_unique_in(PBXValueView::Vec(s)) <==> forall|i: int|
            0 <= i < s.len() ==> keys_unique_in(#[trigger] s[i]),
{
    reveal_with_fuel(keys_unique_in, 2);
    let v = PBXValueView::Vec(s);
    assert(v->Vec_0 == s);
    if keys_unique_in(v) {
        assert forall|i: int| 0 <= i < s.len() implies keys_unique_in(#[trigger] s[i]) by {
            assert(keys_unique_in(v->Vec_0[i]));
        }
    }
    if forall|i: int| 0 <= i < s.len() ==> keys_unique_in(#[trigger] s[i]) {
        assert forall|i: int| 0 <= i < v->Vec_0.len() implies keys_unique_in(
            #[trigger] v->Vec_0[i],
        ) by {
            assert(keys_unique_in(s[i]));
        }
        assert(keys_unique_in(v));
    }
}

/// What [`keys_unique_in`] says of an object: its keys are different, and it
/// holds of the value of each field.
pub proof fn lemma_keys_unique_in_fields(m: PBXHashMapView)
    ensures
        keys_unique_in(PBXValueView::Object(m)) <==> unique_keys(m) && forall|i: int|
            0 <= i < m.len() ==> keys_unique_in(#[trigger] m[i].1),
{
    reveal_with_fuel(keys_unique_in, 2);
}

/// The fields `m` have different keys, and so have the fields of every object
/// inside their values.
pub open spec fn fields_well_formed(m: PBXHashMapView) -> bool {
    keys_unique_in(PBXValueView::Object(m))
}

/// What [`field_index_from`] finds: the first place at or after `from` with
/// the key, if there is one.
pub proof fn lemma_field_index_from(m: PBXHashMapView, key: Seq<char>, from: int)
    requires
        0 <= from <= m.len(),
    ensures
        from <= field_index_from(m, key, from) <= m.len(),
        field_index_from(m, key, from) < m.len() ==> m[field_index_from(m, key, from)].0 == key,
        forall|j: int| from <= j < field_index_from(m, key, from) ==> m[j].0 != key,
    decreases m.len() - from,
{
    if from < m.len() && m[from].0 != key {
        lemma_field_index_from(m, key, from + 1);
    }
}

/// What [`field_index`] finds: the first place with the key, if there is one.
pub proof fn lemma_field_index(m: PBXHashMapView, key: Seq<char>)
    ensures
        0 <= field_index(m, key) <= m.len(),
        has_field(m, key) ==> m[field_index(m, key)].0 == key,
        forall|j: int| 0 <= j < field_index(m, key) ==> m[j].0 != key,
        has_field(m, key) <==> exists|j: int| 0 <= j < m.len() && m[j].0 == key,
{
    lemma_field_index_from(m, key, 0);
    if has_field(m, key) {
        assert(0 <= field_index(m, key) < m.len() && m[field_index(m, key)].0 == key);
    }
}

/// A field that was set is there with its value, and the other keys keep what
/// they had.
pub proof fn lemma_with_field(
    m: PBXHashMapView,
    key: Seq<char>,
    value: PBXValueView,
    other: Seq<char>,
)
    ensures
        field_value(with_field(m, key, value), key) == Some(value),
        other != key ==> field_value(with_field(m, key, value), other) == field_value(m, other),
        unique_keys(m) ==> unique_keys(with_field(m, key, value)),
        fields_well_formed(m) && keys_unique_in(value) ==> fields_well_formed(
            with_field(m, key, value),
        ),
{
    let n = with_field(m, key, value);
    lemma_field_index(m, key);
    lemma_field_index(n, key);
    lemma_field_index(m, other);
    lemma_field_index(n, other);
    let i = field_index(m, key);
    if has_field(m, key) {
        assert(n[i].0 == key);
        assert(forall|j: int| 0 <= j < i ==> n[j].0 == m[j].0);
    } else {
        assert(n[m.len() as int].0 == key);
        assert(forall|j: int| 0 <= j < m.len() ==> n[j].0 == m[j].0);
    }
    lemma_keys_unique_in_fields(m);
    lemma_keys_unique_in_fields(n);
    if fields_well_formed(m) && keys_unique_in(value) {
        assert forall|j: int| 0 <= j < n.len() implies keys_unique_in(#[trigger] n[j].1) by {
            if has_field(m, key) {
                if j != i {
                    assert(n[j] == m[j]);
                }
            } else {
                if j < m.len() {
                    assert(n[j] == m[j]);
                }
            }
        }
    }
    if other != key {
        let a = field_index(m, other);
        let b = field_index(n, other);
        assert(forall|j: int| 0 <= j < m.len() ==> (n[j].0 == other <==> m[j].0 == other));
        if a < m.len() {
            assert(n[a].0 == other);
            if b < a {
                assert(m[b].0 == other);
            }
        } else {
            if b < n.len() {
                assert(b < m.len());
                assert(m[b].0 == other);
            }
        }
    }
}

/// After a field was taken out, the other keys keep what they had.
pub proof fn lemma_without_field_other(m: PBXHashMapView, key: Seq<char>, other: Seq<char>)
    requires
        other != key,
    ensures
        field_value(without_field(m, key), other) == field_value(m, other),
{
    let n = without_field(m, key);
    lemma_field_index(m, key);
    lemma_field_index(m, other);
    lemma_field_index(n, other);
    let i = field_index(m, key);
    if has_field(m, key) {
        assert(forall|j: int| 0 <= j < i ==> n[j] == m[j]);
        assert(forall|j: int| i <= j < n.len() ==> n[j] == m[j + 1]);
        let a = field_index(m, other);
        let b = field_index(n, other);
        if a < m.len() {
            let a2 = if a < i {
                a
            } else {
                a - 1
            };
            assert(n[a2].0 == other);
            assert(b <= a2);
            if b < a2 {
                if b < i {
                    assert(m[b].0 == other);
                } else {
                    assert(m[b + 1].0 == other);
                }
            }
        } else {
            if b < n.len() {
                if b < i {
                    assert(m[b].0 == other);
                } else {
                    assert(m[b + 1].0 == other);
                }
            }
        }
    }
}

/// After a field was taken out of a list with unique keys, its key is gone,
/// and the keys stay unique.
pub proof fn lemma_without_field(m: PBXHashMapView, key: Seq<char>)
    requires
        unique_keys(m),
    ensures
        unique_keys(without_field(m, key)),
        !has_field(without_field(m, key), key),
{
    let n = without_field(m, key);
    lemma_field_index(m, key);
    lemma_field_index(n, key);
    let i = field_index(m, key);
    if has_field(m, key) {
        assert(forall|j: int| 0 <= j < i ==> n[j] == m[j]);
        assert(forall|j: int| i <= j < n.len() ==> n[j] == m[j + 1]);
        if has_field(n, key) {
            let b = field_index(n, key);
            if b < i {
                assert(m[b].0 == key);
            } else {
                assert(m[b + 1].0 == key);
            }
        }
    }
}

/// The string under the key `key` of `m`, if the field is there and holds one.
pub open spec fn field_string(m: PBXHashMapView, key: Seq<char>) -> Option<Seq<char>> {
    match field_value(m, key) {
        Some(PBXValueView::String(v)) => Some(v),
        _ => None,
    }
}

/// The object under the key `key` of `m`, if the field is there and holds one.
pub open spec fn field_object(m: PBXHashMapView, key: Seq<char>) -> Option<PBXHashMapView> {
    match field_value(m, key) {
        Some(PBXValueView::Object(v)) => Some(v),
        _ => None,
    }
}

/// The vec under the key `key` of `m`, if the field is there and holds one.
pub open spec fn field_vec(m: PBXHashMapView, key: Seq<char>) -> Option<Seq<PBXValueView>> {
    match field_value(m, key) {
        Some(PBXValueView::Vec(v)) => Some(v),
        _ => None,
    }
}

/// The number under the key `key` of `m`, if the field is there and holds one.
pub open spec fn field_number(m: PBXHashMapView, key: Seq<char>) -> Option<int> {
    match field_value(m, key) {
        Some(PBXValueView::Number(v)) => Some(v),
        _ => None,
    }
}

/// The bool under the key `key` of `m`, if the field is there and holds one.
pub open spec fn field_bool(m: PBXHashMapView, key: Seq<char>) -> Option<bool> {
    match field_value(m, key) {
        Some(PBXValueView::Bool(v)) => Some(v),
        _ => None,
    }
}

/// The kind under the key `key` of `m`, if the field is there and holds one.
pub open spec fn field_kind(m: PBXHashMapView, key: Seq<char>) -> Option<PBXObjectKindView> {
    match field_value(m, key) {
        Some(PBXValueView::Kind(v)) => Some(v),
        _ => None,
    }
}

/// The flag under the key `key` of `m`: a number, which says yes when it is 1.
pub open spec fn field_flag(m: PBXHashMapView, key: Seq<char>) -> Option<bool> {
    match field_number(m, key) {
        Some(n) => Some(n == 1),
        None => None,
    }
}

/// The strings of the array under the key `key` of `m`.
pub open spec fn field_texts(m: PBXHashMapView, key: Seq<char>) -> Option<Seq<Seq<char>>> {
    match field_vec(m, key) {
        Some(v) => Some(strings_of(v)),
        None => None,
    }
}

/// The flag under the key `key` of `m`, or `default` when the field is not
/// there or holds no number.
pub open spec fn field_flag_or(m: PBXHashMapView, key: Seq<char>, default: bool) -> bool {
    match field_flag(m, key) {
        Some(b) => b,
        None => default,
    }
}

/// The number under the key `key` of `m`, or `default` when the field is not
/// there or holds no number.
pub open spec fn field_number_or(m: PBXHashMapView, key: Seq<char>, default: int) -> int {
    match field_number(m, key) {
        Some(n) => n,
        None => default,
    }
}

/// The identifiers listed under the key `key` of `m`: the strings of the
/// array, or nothing when the field is not there or holds no array.
pub open spec fn field_ids(m: PBXHashMapView, key: Seq<char>) -> Seq<Seq<char>> {
    match field_texts(m, key) {
        Some(ids) => ids,
        None => Seq::empty(),
    }
}

/// The fields of `m` that hold an object, each with its key, in order.
pub open spec fn object_entries(m: PBXHashMapView) -> Seq<(Seq<char>, PBXHashMapView)>
    decreases m.len(),
{
    if m.len() == 0 {
        Seq::empty()
    } else {
        match m.last().1 {
            PBXValueView::Object(fields) => object_entries(m.drop_last()).push(
                (m.last().0, fields),
            ),
            _ => object_entries(m.drop_last()),
        }
    }
}

/// The mathematical value of a list of named objects.
pub open spec fn named_objects_view(
    s: Seq<(String, &PBXHashMap)>,
) -> Seq<(Seq<char>, PBXHashMapView)> {
    Seq::new(s.len(), |i: int| (s[i].0@, s[i].1@))
}

/// The value of the first field with the key `key` that is met when the fields
/// of `m` are gone through from `from` on, and the fields of each object among
/// their values before the fields after it.
pub open spec fn find_value(m: PBXHashMapView, key: Seq<char>, from: int) -> Option<PBXValueView>
    decreases m, m.len() - from,
{
    if from < 0 || from >= m.len() {
        None
    } else if m[from].0 == key {
        Some(m[from].1)
    } else {
        let inside = match m[from].1 {
            PBXValueView::Object(fields) => find_value(fields, key, 0),
            _ => None,
        };
        match inside {
            Some(v) => Some(v),
            None => find_value(m, key, from + 1),
        }
    }
}

/// What [`find_value`] finds in the first object among the values of `m`,
/// from `from` on, in which it finds anything.
pub open spec fn find_value_in_objects(
    m: PBXHashMapView,
    key: Seq<char>,
    from: int,
) -> Option<PBXValueView>
    decreases m.len() - from,
{
    if from < 0 || from >= m.len() {
        None
    } else {
        let inside = match m[from].1 {
            PBXValueView::Object(fields) => find_value(fields, key, 0),
            _ => None,
        };
        match inside {
            Some(v) => Some(v),
            None => find_value_in_objects(m, key, from + 1),
        }
    }
}

/// The error of asking `m` for a field `key` that must hold a value of the
/// variant `expected`: the field is missing, or it holds something else.
pub open spec fn field_error(
    m: PBXHashMapView,
    key: Seq<char>,
    expected: PBXValueKind,
) -> PBXErrorView {
    match field_value(m, key) {
        Some(v) => PBXErrorView::TypeMismatch { expected, actual: value_kind(v) },
        None => PBXErrorView::MissingField { key, object: None },
    }
}

/// The strings among `v`, in order.
pub open spec fn strings_of(v: Seq<PBXValueView>) -> Seq<Seq<char>>
    decreases v.len(),
{
    if v.len() == 0 {
        Seq::empty()
    } else {
        match v.last() {
            PBXValueView::String(s) => strings_of(v.drop_last()).push(s),
            _ => strings_of(v.drop_last()),
        }
    }
}

/// The index of the first value of `v`, from `from` on, that is no string;
/// `v.len()` when all are strings.
pub open spec fn first_non_string(v: Seq<PBXValueView>, from: int) -> int
    decreases v.len() - from,
{
    if from < 0 || from >= v.len() {
        v.len() as int
    } else if !(v[from] is String) {
        from
    } else {
        first_non_string(v, from + 1)
    }
}

impl PBXValue {
    /// The variant of this value.
    pub fn kind(&self) -> (r: PBXValueKind)
        ensures
            r == value_kind(self@),
    {
        match self {
            PBXValue::String(_) => PBXValueKind::String,
            PBXValue::Object(_) => PBXValueKind::Object,
            PBXValue::Vec(_) => PBXValueKind::Vec,
            PBXValue::Number(_) => PBXValueKind::Number,
            PBXValue::Bool(_) => PBXValueKind::Bool,
            PBXValue::Kind(_) => PBXValueKind::Kind,
            PBXValue::Null => PBXValueKind::Null,
        }
    }

    /// Whether this is the `Null` value.
    pub fn is_null(&self) -> (r: bool)
        ensures
            r == (self@ is Null),
    {
        matches!(self, PBXValue::Null)
    }

    /// Whether this is an array.
    pub fn is_array(&self) -> (r: bool)
        ensures
            r == (self@ is Vec),
    {
        matches!(self, PBXValue::Vec(..))
    }

    /// The elements, if this is an array.
    pub fn as_array(&self) -> (r: Option<&Vec<PBXValue>>)
        ensures
            r == (match *self {
                PBXValue::Vec(v) => Some(&v.0),
                _ => None,
            }),
    {
        match self {
            PBXValue::Vec(v) => Some(&v.0),
            _ => None,
        }
    }

    /// The elements, if this is an array; else an error that names the
    /// variant found.
    pub fn try_into_array(self) -> (r: Result<Vec<PBXValue>, PBXError>)
        ensures
            match r {
                Ok(v) => self == PBXValue::Vec(PBXVec(v)),
                Err(e) => !(self@ is Vec) && e@ == (PBXErrorView::TypeMismatch {
                    expected: PBXValueKind::Vec,
                    actual: value_kind(self@),
                }),
            },
    {
        match self {
            PBXValue::Vec(v) => Ok(v.0),
            other => Err(
                PBXError::TypeMismatch { expected: PBXValueKind::Vec, actual: other.kind() },
            ),
        }
    }

    /// Whether this is a string.
    pub fn is_string(&self) -> (r: bool)
        ensures
            r == (self@ is String),
    {
        matches!(self, PBXValue::String(..))
    }

    /// What is inside, if this is a string.
    pub fn as_string(&self) -> (r: Option<&String>)
        ensures
            r == (match *self {
                PBXValue::String(v) => Some(&v),
                _ => None,
            }),
    {
        match self {
            PBXValue::String(v) => Some(v),
            _ => None,
        }
    }

    /// What is inside, if this is a string; else an error that names the variant
    /// found.
    pub fn try_into_string(self) -> (r: Result<String, PBXError>)
        ensures
            match r {
                Ok(v) => self == PBXValue::String(v),
                Err(e) => !(self@ is String) && e@ == (PBXErrorView::TypeMismatch {
                    expected: PBXValueKind::String,
                    actual: value_kind(self@),
                }),
            },
    {
        match self {
            PBXValue::String(v) => Ok(v),
            other => Err(
                PBXError::TypeMismatch { expected: PBXValueKind::String, actual: other.kind() },
            ),
        }
    }

    /// Whether this is an object.
    pub fn is_object(&self) -> (r: bool)
        ensures
            r == (self@ is Object),
    {
        matches!(self, PBXValue::Object(..))
    }

    /// What is inside, if this is an object.
    pub fn as_object(&self) -> (r: Option<&PBXHashMap>)
        ensures
            r == (match *self {
                PBXValue::Object(v) => Some(&v),
                _ => None,
            }),
    {
        match self {
            PBXValue::Object(v) => Some(v),
            _ => None,
        }
    }

    /// What is inside, if this is an object; else an error that names the variant
    /// found.
    pub fn try_into_object(self) -> (r: Result<PBXHashMap, PBXError>)
        ensures
            match r {
                Ok(v) => self == PBXValue::Object(v),
                Err(e) => !(self@ is Object) && e@ == (PBXErrorView::TypeMismatch {
                    expected: PBXValueKind::Object,
                    actual: value_kind(self@),
                }),
            },
    {
        match self {
            PBXValue::Object(v) => Ok(v),
            other => Err(
                PBXError::TypeMismatch { expected: PBXValueKind::Object, actual: other.kind() },
            ),
        }
    }

    /// Whether this is an array.
    pub fn is_vec(&self) -> (r: bool)
        ensures
            r == (self@ is Vec),
    {
        matches!(self, PBXValue::Vec(..))
    }

    /// What is inside, if this is an array.
    pub fn as_vec(&self) -> (r: Option<&PBXVec>)
        ensures
            r == (match *self {
                PBXValue::Vec(v) => Some(&v),
                _ => None,
            }),
    {
        match self {
            PBXValue::Vec(v) => Some(v),
            _ => None,
        }
    }

    /// What is inside, if this is an array; else an error that names the variant
    /// found.
    pub fn try_into_vec(self) -> (r: Result<PBXVec, PBXError>)
        ensures
            match r {
                Ok(v) => self == PBXValue::Vec(v),
                Err(e) => !(self@ is Vec) && e@ == (PBXErrorView::TypeMismatch {
                    expected: PBXValueKind::Vec,
                    actual: value_kind(self@),
                }),
            },
    {
        match self {
            PBXValue::Vec(v) => Ok(v),
            other => Err(
                PBXError::TypeMismatch { expected: PBXValueKind::Vec, actual: other.kind() },
            ),
        }
    }

    /// Whether this is a number.
    pub fn is_number(&self) -> (r: bool)
        ensures
            r == (self@ is Number),
    {
        matches!(self, PBXValue::Number(..))
    }

    /// What is inside, if this is a number.
    pub fn as_number(&self) -> (r: Option<&isize>)
        ensures
            r == (match *self {
                PBXValue::Number(v) => Some(&v),
                _ => None,
            }),
    {
        match self {
            PBXValue::Number(v) => Some(v),
            _ => None,
        }
    }

    /// What is inside, if this is a number; else an error that names the variant
    /// found.
    pub fn try_into_number(self) -> (r: Result<isize, PBXError>)
        ensures
            match r {
                Ok(v) => self == PBXValue::Number(v),
                Err(e) => !(self@ is Number) && e@ == (PBXErrorView::TypeMismatch {
                    expected: PBXValueKind::Number,
                    actual: value_kind(self@),
                }),
            },
    {
        match self {
            PBXValue::Number(v) => Ok(v),
            other => Err(
                PBXError::TypeMismatch { expected: PBXValueKind::Number, actual: other.kind() },
            ),
        }
    }

    /// Whether this is a boolean.
    pub fn is_bool(&self) -> (r: bool)
        ensures
            r == (self@ is Bool),
    {
        matches!(self, PBXValue::Bool(..))
    }

    /// What is inside, if this is a boolean.
    pub fn as_bool(&self) -> (r: Option<&bool>)
        ensures
            r == (match *self {
                PBXValue::Bool(v) => Some(&v),
                _ => None,
            }),
    {
        match self {
            PBXValue::Bool(v) => Some(v),
            _ => None,
        }
    }

    /// What is inside, if this is a boolean; else an error that names the variant
    /// found.
    pub fn try_into_bool(self) -> (r: Result<bool, PBXError>)
        ensures
            match r {
                Ok(v) => self == PBXValue::Bool(v),
                Err(e) => !(self@ is Bool) && e@ == (PBXErrorView::TypeMismatch {
                    expected: PBXValueKind::Bool,
                    actual: value_kind(self@),
                }),
            },
    {
        match self {
            PBXValue::Bool(v) => Ok(v),
            other => Err(
                PBXError::TypeMismatch { expected: PBXValueKind::Bool, actual: other.kind() },
            ),
        }
    }

    /// Whether this is an object kind.
    pub fn is_kind(&self) -> (r: bool)
        ensures
            r == (self@ is Kind),
    {
        matches!(self, PBXValue::Kind(..))
    }

    /// What is inside, if this is an object kind.
    pub fn as_kind(&self) -> (r: Option<&PBXObjectKind>)
        ensures
            r == (match *self {
                PBXValue::Kind(v) => Some(&v),
                _ => None,
            }),
    {
        match self {
            PBXValue::Kind(v) => Some(v),
            _ => None,
        }
    }

    /// What is inside, if this is an object kind; else an error that names the variant
    /// found.
    pub fn try_into_kind(self) -> (r: Result<PBXObjectKind, PBXError>)
        ensures
            match r {
                Ok(v) => self == PBXValue::Kind(v),
                Err(e) => !(self@ is Kind) && e@ == (PBXErrorView::TypeMismatch {
                    expected: PBXValueKind::Kind,
                    actual: value_kind(self@),
                }),
            },
    {
        match self {
            PBXValue::Kind(v) => Ok(v),
            other => Err(
                PBXError::TypeMismatch { expected: PBXValueKind::Kind, actual: other.kind() },
            ),
        }
    }
}

impl PBXHashMap {
    /// The fields of `entries`, set one after the other: of two fields with
    /// one key, the later one stays, in the place of the first.
    pub fn new(entries: Vec<(String, PBXValue)>) -> (r: PBXHashMap)
        ensures
            r@ == with_fields(Seq::empty(), entries_view(entries@)),
            unique_keys(r@),
    {
        let mut map = PBXHashMap { entries: Vec::new() };
        let ghost all = entries@;
        assert(map@ =~= Seq::<(Seq<char>, PBXValueView)>::empty());
        for item in it: entries
            invariant
                it.seq() == all,
                map@ == with_fields(Seq::empty(), entries_view(all.take(it.index()))),
                unique_keys(map@),
        {
            let ghost k = it.index();
            let (key, value) = item;
            proof {
                assert(entries_view(all.take(k + 1)).drop_last() =~= entries_view(all.take(k)));
                assert(entries_view(all.take(k + 1)).last() == (key@, value@));
                lemma_with_field(map@, key@, value@, key@);
            }
            map.insert(key, value);
        }
        assert(all.take(all.len() as int) =~= all);
        map
    }

    /// A map without fields.
    pub fn empty() -> (r: PBXHashMap)
        ensures
            r@ == Seq::<(Seq<char>, PBXValueView)>::empty(),
            unique_keys(r@),
    {
        let r = PBXHashMap { entries: Vec::new() };
        assert(r@ =~= Seq::<(Seq<char>, PBXValueView)>::empty());
        r
    }

    /// The number of fields.
    pub fn len(&self) -> (r: usize)
        ensures
            r == self@.len(),
    {
        self.entries.len()
    }

    /// The place of the first field with the key `key`.
    pub fn position(&self, key: &str) -> (r: Option<usize>)
        ensures
            match r {
                Some(i) => i < self@.len() && i == field_index(self@, key@),
                None => !has_field(self@, key@),
            },
    {
        let mut i: usize = 0;
        while i < self.entries.len()
            invariant
                i <= self.entries.len(),
                field_index(self@, key@) == field_index_from(self@, key@, i as int),
            decreases self.entries.len() - i,
        {
            if same_text(self.entries[i].0.as_str(), key) {
                return Some(i);
            }
            i += 1;
        }
        None
    }

    /// Whether there is a field with the key `key`.
    pub fn contains_key(&self, key: &str) -> (r: bool)
        ensures
            r == has_field(self@, key@),
    {
        self.position(key).is_some()
    }

    /// Sets the field `key` to `value`: in the place of the first field with
    /// this key, or at the end when there is none.
    pub fn insert(&mut self, key: String, value: PBXValue)
        ensures
            final(self)@ == with_field(old(self)@, key@, value@),
            unique_keys(old(self)@) ==> unique_keys(final(self)@),
            fields_well_formed(old(self)@) && keys_unique_in(value@) ==> fields_well_formed(
                final(self)@,
            ),
    {
        proof {
            lemma_with_field(self@, key@, value@, key@);
        }
        match self.position(key.as_str()) {
            Some(i) => {
                self.entries.set(i, (key, value));
                assert(self@ =~= with_field(old(self)@, key@, value@));
            },
            None => {
                self.entries.push((key, value));
                assert(self@ =~= with_field(old(self)@, key@, value@));
            },
        }
    }

    /// The value of the field `key`, if there is such a field.
    pub fn get_value(&self, key: &str) -> (r: Option<&PBXValue>)
        ensures
            match r {
                Some(v) => field_value(self@, key@) == Some(v@),
                None => field_value(self@, key@) is None,
            },
    {
        match self.position(key) {
            Some(i) => Some(&self.entries[i].1),
            None => None,
        }
    }

    /// The value of the field `key`; an error that names the key when there is
    /// no such field.
    pub fn try_get_value(&self, key: &str) -> (r: Result<&PBXValue, PBXError>)
        ensures
            match r {
                Ok(v) => field_value(self@, key@) == Some(v@),
                Err(e) => field_value(self@, key@) is None && e@ == (PBXErrorView::MissingField {
                    key: key@,
                    object: None,
                }),
            },
    {
        match self.get_value(key) {
            Some(v) => Ok(v),
            None => Err(PBXError::MissingField { key: String::from_str(key), object: None }),
        }
    }

    /// Takes the first field with the key `key` out of the map and returns its
    /// value; leaves the map as it is when there is no such field.
    pub fn remove_value(&mut self, key: &str) -> (r: Option<PBXValue>)
        ensures
            final(self)@ == without_field(old(self)@, key@),
            unique_keys(old(self)@) ==> unique_keys(final(self)@) && !has_field(final(self)@, key@),
            match r {
                Some(v) => field_value(old(self)@, key@) == Some(v@),
                None => field_value(old(self)@, key@) is None,
            },
    {
        proof {
            if unique_keys(self@) {
                lemma_without_field(self@, key@);
            }
        }
        match self.position(key) {
            Some(i) => {
                let (_, value) = self.entries.remove(i);
                assert(self@ =~= without_field(old(self)@, key@));
                Some(value)
            },
            None => None,
        }
    }

    /// As [`PBXHashMap::remove_value`]; an error that names the key when there
    /// is no such field.
    pub fn try_remove_value(&mut self, key: &str) -> (r: Result<PBXValue, PBXError>)
        ensures
            final(self)@ == without_field(old(self)@, key@),
            unique_keys(old(self)@) ==> unique_keys(final(self)@) && !has_field(final(self)@, key@),
            match r {
                Ok(v) => field_value(old(self)@, key@) == Some(v@),
                Err(e) => field_value(old(self)@, key@) is None && e@ == (
                PBXErrorView::MissingField { key: key@, object: None }),
            },
    {
        match self.remove_value(key) {
            Some(v) => Ok(v),
            None => Err(PBXError::MissingField { key: String::from_str(key), object: None }),
        }
    }

    /// A copy of the string under `key`, if the field is there and holds one.
    pub fn text(&self, key: &str) -> (r: Option<String>)
        ensures
            opt_text(r) == field_string(self@, key@),
    {
        match self.get_string(key) {
            Some(s) => Some(s.clone()),
            None => None,
        }
    }

    /// The number under `key`, if the field is there and holds one.
    pub fn number(&self, key: &str) -> (r: Option<isize>)
        ensures
            opt_int(r) == field_number(self@, key@),
    {
        match self.get_number(key) {
            Some(n) => Some(*n),
            None => None,
        }
    }

    /// The flag under `key`: whether the number that the field holds is 1.
    pub fn flag(&self, key: &str) -> (r: Option<bool>)
        ensures
            r == field_flag(self@, key@),
    {
        match self.get_number(key) {
            Some(n) => Some(*n == 1),
            None => None,
        }
    }

    /// Copies of the strings of the array under `key`, if the field is there
    /// and holds an array.
    pub fn texts(&self, key: &str) -> (r: Option<Vec<String>>)
        ensures
            opt_texts(r) == field_texts(self@, key@),
    {
        match self.get_vec(key) {
            Some(v) => Some(v.to_vec_strings()),
            None => None,
        }
    }

    /// The flag under `key`, or `default` when the field is not there or holds
    /// no number.
    pub fn flag_or(&self, key: &str, default: bool) -> (r: bool)
        ensures
            r == field_flag_or(self@, key@, default),
    {
        match self.flag(key) {
            Some(b) => b,
            None => default,
        }
    }

    /// The number under `key`, or `default` when the field is not there or
    /// holds no number.
    pub fn number_or(&self, key: &str, default: isize) -> (r: isize)
        ensures
            r as int == field_number_or(self@, key@, default as int),
    {
        match self.number(key) {
            Some(n) => n,
            None => default,
        }
    }

    /// Copies of the identifiers listed under `key`: the strings of the array,
    /// or nothing when the field is not there or holds no array.
    pub fn ids(&self, key: &str) -> (r: Vec<String>)
        ensures
            crate::text::texts_view(r@) == field_ids(self@, key@),
    {
        match self.texts(key) {
            Some(ids) => ids,
            None => {
                let ids: Vec<String> = Vec::new();
                assert(crate::text::texts_view(ids@) =~= Seq::empty());
                ids
            },
        }
    }

    /// The fields that hold an object, each with a copy of its key, in order.
    pub fn object_entries(&self) -> (r: Vec<(String, &PBXHashMap)>)
        ensures
            named_objects_view(r@) == object_entries(self@),
    {
        let mut out: Vec<(String, &PBXHashMap)> = Vec::new();
        let mut i: usize = 0;
        assert(named_objects_view(out@) =~= Seq::empty());
        assert(self@.take(0) =~= Seq::empty());
        while i < self.entries.len()
            invariant
                i <= self.entries.len(),
                named_objects_view(out@) == object_entries(self@.take(i as int)),
            decreases self.entries.len() - i,
        {
            assert(self@.take(i + 1).drop_last() =~= self@.take(i as int));
            assert(self@.take(i + 1).last() == self@[i as int]);
            let ghost before = named_objects_view(out@);
            match &self.entries[i].1 {
                PBXValue::Object(fields) => {
                    out.push((self.entries[i].0.clone(), fields));
                    assert(named_objects_view(out@) =~= before.push((self@[i as int].0, fields@)));
                },
                _ => {},
            }
            i += 1;
        }
        assert(self@.take(self.entries.len() as int) =~= self@);
        out
    }

    /// The value of the first field with the key `key`, looked for in the
    /// fields in order, and in the fields of an object before the fields
    /// that follow it.
    pub fn extract_value(&self, key: &str) -> (r: Option<&PBXValue>)
        ensures
            match r {
                Some(v) => find_value(self@, key@, 0) == Some(v@),
                None => find_value(self@, key@, 0) is None,
            },
        decreases self,
    {
        let mut i: usize = 0;
        while i < self.entries.len()
            invariant
                i <= self.entries.len(),
                find_value(self@, key@, 0) == find_value(self@, key@, i as int),
            decreases self.entries.len() - i,
        {
            assert(self@[i as int] == (self.entries@[i as int].0@, self.entries@[i as int].1@));
            if same_text(self.entries[i].0.as_str(), key) {
                return Some(&self.entries[i].1);
            }
            match &self.entries[i].1 {
                PBXValue::Object(fields) => {
                    match fields.extract_value(key) {
                        Some(v) => {
                            return Some(v);
                        },
                        None => {},
                    }
                },
                _ => {},
            }
            i += 1;
        }
        None
    }

    /// As [`PBXHashMap::extract_value`], in the objects among the values only:
    /// the keys of this map itself are not looked at.
    pub fn extract_value_in_objects(&self, key: &str) -> (r: Option<&PBXValue>)
        ensures
            match r {
                Some(v) => find_value_in_objects(self@, key@, 0) == Some(v@),
                None => find_value_in_objects(self@, key@, 0) is None,
            },
    {
        let mut i: usize = 0;
        while i < self.entries.len()
            invariant
                i <= self.entries.len(),
                find_value_in_objects(self@, key@, 0) == find_value_in_objects(
                    self@,
                    key@,
                    i as int,
                ),
            decreases self.entries.len() - i,
        {
            assert(self@[i as int] == (self.entries@[i as int].0@, self.entries@[i as int].1@));
            match &self.entries[i].1 {
                PBXValue::Object(fields) => {
                    match fields.extract_value(key) {
                        Some(v) => {
                            return Some(v);
                        },
                        None => {},
                    }
                },
                _ => {},
            }
            i += 1;
        }
        None
    }

    /// The field `key`, if it is there and holds a string.
    pub fn get_string(&self, key: &str) -> (r: Option<&String>)
        ensures
            match r {
                Some(v) => field_string(self@, key@) == Some(v@),
                None => field_string(self@, key@) is None,
            },
    {
        match self.get_value(key) {
            Some(value) => value.as_string(),
            None => None,
        }
    }

    /// The field `key`, which must be there and hold a string: else an error that
    /// says which of the two failed.
    pub fn try_get_string(&self, key: &str) -> (r: Result<&String, PBXError>)
        ensures
            match r {
                Ok(v) => field_string(self@, key@) == Some(v@),
                Err(e) => field_string(self@, key@) is None && e@ == field_error(
                    self@,
                    key@,
                    PBXValueKind::String,
                ),
            },
    {
        let value = self.try_get_value(key)?;
        match value.as_string() {
            Some(v) => Ok(v),
            None => Err(
                PBXError::TypeMismatch { expected: PBXValueKind::String, actual: value.kind() },
            ),
        }
    }

    /// Takes the field `key` out of the map, and returns what it held if that
    /// was a string.
    pub fn remove_string(&mut self, key: &str) -> (r: Option<String>)
        ensures
            final(self)@ == without_field(old(self)@, key@),
            unique_keys(old(self)@) ==> unique_keys(final(self)@) && !has_field(final(self)@, key@),
            match r {
                Some(v) => field_string(old(self)@, key@) == Some(v@),
                None => field_string(old(self)@, key@) is None,
            },
    {
        match self.remove_value(key) {
            Some(value) => match value.try_into_string() {
                Ok(v) => Some(v),
                Err(_) => None,
            },
            None => None,
        }
    }

    /// Takes the field `key` out of the map, and returns what it held: an
    /// error when there was no such field, or when it did not hold a string.
    pub fn try_remove_string(&mut self, key: &str) -> (r: Result<String, PBXError>)
        ensures
            final(self)@ == without_field(old(self)@, key@),
            unique_keys(old(self)@) ==> unique_keys(final(self)@) && !has_field(final(self)@, key@),
            match r {
                Ok(v) => field_string(old(self)@, key@) == Some(v@),
                Err(e) => field_string(old(self)@, key@) is None && e@ == field_error(
                    old(self)@,
                    key@,
                    PBXValueKind::String,
                ),
            },
    {
        let value = self.try_remove_value(key)?;
        value.try_into_string()
    }

    /// The field `key`, if it is there and holds an object.
    pub fn get_object(&self, key: &str) -> (r: Option<&PBXHashMap>)
        ensures
            match r {
                Some(v) => field_object(self@, key@) == Some(v@),
                None => field_object(self@, key@) is None,
            },
    {
        match self.get_value(key) {
            Some(value) => value.as_object(),
            None => None,
        }
    }

    /// The field `key`, which must be there and hold an object: else an error that
    /// says which of the two failed.
    pub fn try_get_object(&self, key: &str) -> (r: Result<&PBXHashMap, PBXError>)
        ensures
            match r {
                Ok(v) => field_object(self@, key@) == Some(v@),
                Err(e) => field_object(self@, key@) is None && e@ == field_error(
                    self@,
                    key@,
                    PBXValueKind::Object,
                ),
            },
    {
        let value = self.try_get_value(key)?;
        match value.as_object() {
            Some(v) => Ok(v),
            None => Err(
                PBXError::TypeMismatch { expected: PBXValueKind::Object, actual: value.kind() },
            ),
        }
    }

    /// Takes the field `key` out of the map, and returns what it held if that
    /// was an object.
    pub fn remove_object(&mut self, key: &str) -> (r: Option<PBXHashMap>)
        ensures
            final(self)@ == without_field(old(self)@, key@),
            unique_keys(old(self)@) ==> unique_keys(final(self)@) && !has_field(final(self)@, key@),
            match r {
                Some(v) => field_object(old(self)@, key@) == Some(v@),
                None => field_object(old(self)@, key@) is None,
            },
    {
        match self.remove_value(key) {
            Some(value) => match value.try_into_object() {
                Ok(v) => Some(v),
                Err(_) => None,
            },
            None => None,
        }
    }

    /// Takes the field `key` out of the map, and returns what it held: an
    /// error when there was no such field, or when it did not hold an object.
    pub fn try_remove_object(&mut self, key: &str) -> (r: Result<PBXHashMap, PBXError>)
        ensures
            final(self)@ == without_field(old(self)@, key@),
            unique_keys(old(self)@) ==> unique_keys(final(self)@) && !has_field(final(self)@, key@),
            match r {
                Ok(v) => field_object(old(self)@, key@) == Some(v@),
                Err(e) => field_object(old(self)@, key@) is None && e@ == field_error(
                    old(self)@,
                    key@,
                    PBXValueKind::Object,
                ),
            },
    {
        let value = self.try_remove_value(key)?;
        value.try_into_object()
    }

    /// The field `key`, if it is there and holds an array.
    pub fn get_vec(&self, key: &str) -> (r: Option<&PBXVec>)
        ensures
            match r {
                Some(v) => field_vec(self@, key@) == Some(v@),
                None => field_vec(self@, key@) is None,
            },
    {
        match self.get_value(key) {
            Some(value) => value.as_vec(),
            None => None,
        }
    }

    /// The field `key`, which must be there and hold an array: else an error that
    /// says which of the two failed.
    pub fn try_get_vec(&self, key: &str) -> (r: Result<&PBXVec, PBXError>)
        ensures
            match r {
                Ok(v) => field_vec(self@, key@) == Some(v@),
                Err(e) => field_vec(self@, key@) is None && e@ == field_error(
                    self@,
                    key@,
                    PBXValueKind::Vec,
                ),
            },
    {
        let value = self.try_get_value(key)?;
        match value.as_vec() {
            Some(v) => Ok(v),
            None => Err(
                PBXError::TypeMismatch { expected: PBXValueKind::Vec, actual: value.kind() },
            ),
        }
    }

    /// Takes the field `key` out of the map, and returns what it held if that
    /// was an array.
    pub fn remove_vec(&mut self, key: &str) -> (r: Option<PBXVec>)
        ensures
            final(self)@ == without_field(old(self)@, key@),
            unique_keys(old(self)@) ==> unique_keys(final(self)@) && !has_field(final(self)@, key@),
            match r {
                Some(v) => field_vec(old(self)@, key@) == Some(v@),
                None => field_vec(old(self)@, key@) is None,
            },
    {
        match self.remove_value(key) {
            Some(value) => match value.try_into_vec() {
                Ok(v) => Some(v),
                Err(_) => None,
            },
            None => None,
        }
    }

    /// Takes the field `key` out of the map, and returns what it held: an
    /// error when there was no such field, or when it did not hold an array.
    pub fn try_remove_vec(&mut self, key: &str) -> (r: Result<PBXVec, PBXError>)
        ensures
            final(self)@ == without_field(old(self)@, key@),
            unique_keys(old(self)@) ==> unique_keys(final(self)@) && !has_field(final(self)@, key@),
            match r {
                Ok(v) => field_vec(old(self)@, key@) == Some(v@),
                Err(e) => field_vec(old(self)@, key@) is None && e@ == field_error(
                    old(self)@,
                    key@,
                    PBXValueKind::Vec,
                ),
            },
    {
        let value = self.try_remove_value(key)?;
        value.try_into_vec()
    }

    /// The field `key`, if it is there and holds a number.
    pub fn get_number(&self, key: &str) -> (r: Option<&isize>)
        ensures
            match r {
                Some(v) => field_number(self@, key@) == Some(*v as int),
                None => field_number(self@, key@) is None,
            },
    {
        match self.get_value(key) {
            Some(value) => value.as_number(),
            None => None,
        }
    }

    /// The field `key`, which must be there and hold a number: else an error that
    /// says which of the two failed.
    pub fn try_get_number(&self, key: &str) -> (r: Result<&isize, PBXError>)
        ensures
            match r {
                Ok(v) => field_number(self@, key@) == Some(*v as int),
                Err(e) => field_number(self@, key@) is None && e@ == field_error(
                    self@,
                    key@,
                    PBXValueKind::Number,
                ),
            },
    {
        let value = self.try_get_value(key)?;
        match value.as_number() {
            Some(v) => Ok(v),
            None => Err(
                PBXError::TypeMismatch { expected: PBXValueKind::Number, actual: value.kind() },
            ),
        }
    }

    /// Takes the field `key` out of the map, and returns what it held if that
    /// was a number.
    pub fn remove_number(&mut self, key: &str) -> (r: Option<isize>)
        ensures
            final(self)@ == without_field(old(self)@, key@),
            unique_keys(old(self)@) ==> unique_keys(final(self)@) && !has_field(final(self)@, key@),
            match r {
                Some(v) => field_number(old(self)@, key@) == Some(v as int),
                None => field_number(old(self)@, key@) is None,
            },
    {
        match self.remove_value(key) {
            Some(value) => match value.try_into_number() {
                Ok(v) => Some(v),
                Err(_) => None,
            },
            None => None,
        }
    }

    /// Takes the field `key` out of the map, and returns what it held: an
    /// error when there was no such field, or when it did not hold a number.
    pub fn try_remove_number(&mut self, key: &str) -> (r: Result<isize, PBXError>)
        ensures
            final(self)@ == without_field(old(self)@, key@),
            unique_keys(old(self)@) ==> unique_keys(final(self)@) && !has_field(final(self)@, key@),
            match r {
                Ok(v) => field_number(old(self)@, key@) == Some(v as int),
                Err(e) => field_number(old(self)@, key@) is None && e@ == field_error(
                    old(self)@,
                    key@,
                    PBXValueKind::Number,
                ),
            },
    {
        let value = self.try_remove_value(key)?;
        value.try_into_number()
    }

    /// The field `key`, if it is there and holds a boolean.
    pub fn get_bool(&self, key: &str) -> (r: Option<&bool>)
        ensures
            match r {
                Some(v) => field_bool(self@, key@) == Some(*v),
                None => field_bool(self@, key@) is None,
            },
    {
        match self.get_value(key) {
            Some(value) => value.as_bool(),
            None => None,
        }
    }

    /// The field `key`, which must be there and hold a boolean: else an error that
    /// says which of the two failed.
    pub fn try_get_bool(&self, key: &str) -> (r: Result<&bool, PBXError>)
        ensures
            match r {
                Ok(v) => field_bool(self@, key@) == Some(*v),
                Err(e) => field_bool(self@, key@) is None && e@ == field_error(
                    self@,
                    key@,
                    PBXValueKind::Bool,
                ),
            },
    {
        let value = self.try_get_value(key)?;
        match value.as_bool() {
            Some(v) => Ok(v),
            None => Err(
                PBXError::TypeMismatch { expected: PBXValueKind::Bool, actual: value.kind() },
            ),
        }
    }

    /// Takes the field `key` out of the map, and returns what it held if that
    /// was a boolean.
    pub fn remove_bool(&mut self, key: &str) -> (r: Option<bool>)
        ensures
            final(self)@ == without_field(old(self)@, key@),
            unique_keys(old(self)@) ==> unique_keys(final(self)@) && !has_field(final(self)@, key@),
            match r {
                Some(v) => field_bool(old(self)@, key@) == Some(v),
                None => field_bool(old(self)@, key@) is None,
            },
    {
        match self.remove_value(key) {
            Some(value) => match value.try_into_bool() {
                Ok(v) => Some(v),
                Err(_) => None,
            },
            None => None,
        }
    }

    /// Takes the field `key` out of the map, and returns what it held: an
    /// error when there was no such field, or when it did not hold a boolean.
    pub fn try_remove_bool(&mut self, key: &str) -> (r: Result<bool, PBXError>)
        ensures
            final(self)@ == without_field(old(self)@, key@),
            unique_keys(old(self)@) ==> unique_keys(final(self)@) && !has_field(final(self)@, key@),
            match r {
                Ok(v) => field_bool(old(self)@, key@) == Some(v),
                Err(e) => field_bool(old(self)@, key@) is None && e@ == field_error(
                    old(self)@,
                    key@,
                    PBXValueKind::Bool,
                ),
            },
    {
        let value = self.try_remove_value(key)?;
        value.try_into_bool()
    }

    /// The field `key`, if it is there and holds an object kind.
    pub fn get_kind(&self, key: &str) -> (r: Option<&PBXObjectKind>)
        ensures
            match r {
                Some(v) => field_kind(self@, key@) == Some(v@),
                None => field_kind(self@, key@) is None,
            },
    {
        match self.get_value(key) {
            Some(value) => value.as_kind(),
            None => None,
        }
    }

    /// The field `key`, which must be there and hold an object kind: else an error that
    /// says which of the two failed.
    pub fn try_get_kind(&self, key: &str) -> (r: Result<&PBXObjectKind, PBXError>)
        ensures
            match r {
                Ok(v) => field_kind(self@, key@) == Some(v@),
                Err(e) => field_kind(self@, key@) is None && e@ == field_error(
                    self@,
                    key@,
                    PBXValueKind::Kind,
                ),
            },
    {
        let value = self.try_get_value(key)?;
        match value.as_kind() {
            Some(v) => Ok(v),
            None => Err(
                PBXError::TypeMismatch { expected: PBXValueKind::Kind, actual: value.kind() },
            ),
        }
    }

    /// Takes the field `key` out of the map, and returns what it held if that
    /// was an object kind.
    pub fn remove_kind(&mut self, key: &str) -> (r: Option<PBXObjectKind>)
        ensures
            final(self)@ == without_field(old(self)@, key@),
            unique_keys(old(self)@) ==> unique_keys(final(self)@) && !has_field(final(self)@, key@),
            match r {
                Some(v) => field_kind(old(self)@, key@) == Some(v@),
                None => field_kind(old(self)@, key@) is None,
            },
    {
        match self.remove_value(key) {
            Some(value) => match value.try_into_kind() {
                Ok(v) => Some(v),
                Err(_) => None,
            },
            None => None,
        }
    }

    /// Takes the field `key` out of the map, and returns what it held: an
    /// error when there was no such field, or when it did not hold an object kind.
    pub fn try_remove_kind(&mut self, key: &str) -> (r: Result<PBXObjectKind, PBXError>)
        ensures
            final(self)@ == without_field(old(self)@, key@),
            unique_keys(old(self)@) ==> unique_keys(final(self)@) && !has_field(final(self)@, key@),
            match r {
                Ok(v) => field_kind(old(self)@, key@) == Some(v@),
                Err(e) => field_kind(old(self)@, key@) is None && e@ == field_error(
                    old(self)@,
                    key@,
                    PBXValueKind::Kind,
                ),
            },
    {
        let value = self.try_remove_value(key)?;
        value.try_into_kind()
    }
}

impl PBXVec {
    /// An array of the values `inner`.
    pub fn new(inner: Vec<PBXValue>) -> (r: PBXVec)
        ensures
            r.0 == inner,
    {
        PBXVec(inner)
    }

    /// The number of values.
    pub fn len(&self) -> (r: usize)
        ensures
            r == self@.len(),
    {
        self.0.len()
    }

    /// The strings among the values, in order; what is no string is left out.
    pub fn as_vec_strings(&self) -> (r: Vec<&String>)
        ensures
            r@.len() == strings_of(self@).len(),
            forall|i: int| 0 <= i < r@.len() ==> r@[i]@ == #[trigger] strings_of(self@)[i],
    {
        let mut out: Vec<&String> = Vec::new();
        let mut i: usize = 0;
        while i < self.0.len()
            invariant
                i <= self.0.len(),
                out@.len() == strings_of(self@.take(i as int)).len(),
                forall|j: int|
                    0 <= j < out@.len() ==> out@[j]@
                        == #[trigger] strings_of(self@.take(i as int))[j],
            decreases self.0.len() - i,
        {
            assert(self@.take(i + 1).drop_last() =~= self@.take(i as int));
            assert(self@.take(i + 1).last() == self@[i as int]);
            match &self.0[i] {
                PBXValue::String(s) => {
                    out.push(s);
                },
                _ => {},
            }
            i += 1;
        }
        assert(self@.take(self.0.len() as int) =~= self@);
        out
    }

    /// Copies of the strings among the values, in order.
    pub fn to_vec_strings(&self) -> (r: Vec<String>)
        ensures
            crate::text::texts_view(r@) == strings_of(self@),
    {
        let mut out: Vec<String> = Vec::new();
        let mut i: usize = 0;
        while i < self.0.len()
            invariant
                i <= self.0.len(),
                crate::text::texts_view(out@) == strings_of(self@.take(i as int)),
            decreases self.0.len() - i,
        {
            assert(self@.take(i + 1).drop_last() =~= self@.take(i as int));
            assert(self@.take(i + 1).last() == self@[i as int]);
            let ghost before = crate::text::texts_view(out@);
            match &self.0[i] {
                PBXValue::String(s) => {
                    out.push(s.clone());
                    assert(crate::text::texts_view(out@) =~= before.push(s@));
                },
                _ => {},
            }
            i += 1;
        }
        assert(self@.take(self.0.len() as int) =~= self@);
        out
    }

    /// The values as strings: an error that names the variant of the first
    /// value that is no string.
    pub fn try_into_vec_strings(self) -> (r: Result<Vec<String>, PBXError>)
        ensures
            match r {
                Ok(v) => first_non_string(self@, 0) == self@.len() && v@.len() == self@.len()
                    && forall|i: int|
                    0 <= i < v@.len() ==> #[trigger] self@[i] == PBXValueView::String(v@[i]@),
                Err(e) => first_non_string(self@, 0) < self@.len() && e@ == (
                PBXErrorView::TypeMismatch {
                    expected: PBXValueKind::String,
                    actual: value_kind(self@[first_non_string(self@, 0)]),
                }),
            },
    {
        let ghost all = self.0@;
        let mut out: Vec<String> = Vec::new();
        for value in it: self.0
            invariant
                it.seq() == all,
                out@.len() == it.index(),
                first_non_string(values_view(all), 0) == first_non_string(
                    values_view(all),
                    it.index(),
                ),
                forall|i: int|
                    0 <= i < out@.len() ==> #[trigger] values_view(all)[i] == PBXValueView::String(
                        out@[i]@,
                    ),
        {
            match value {
                PBXValue::String(s) => {
                    out.push(s);
                },
                other => {
                    return Err(
                        PBXError::TypeMismatch {
                            expected: PBXValueKind::String,
                            actual: other.kind(),
                        },
                    );
                },
            }
        }
        Ok(out)
    }
}

/// Whether two values are the same.
pub fn same_value(a: &PBXValue, b: &PBXValue) -> (r: bool)
    ensures
        r == (a@ == b@),
    decreases a,
{
    match (a, b) {
        (PBXValue::String(x), PBXValue::String(y)) => same_text(x.as_str(), y.as_str()),
        (PBXValue::Object(x), PBXValue::Object(y)) => same_entries(&x.entries, &y.entries),
        (PBXValue::Vec(x), PBXValue::Vec(y)) => same_values(&x.0, &y.0),
        (PBXValue::Number(x), PBXValue::Number(y)) => *x == *y,
        (PBXValue::Bool(x), PBXValue::Bool(y)) => *x == *y,
        (PBXValue::Kind(x), PBXValue::Kind(y)) => *x == *y,
        (PBXValue::Null, PBXValue::Null) => true,
        _ => false,
    }
}

/// Whether two lists of values hold the same values in the same order.
pub fn same_values(a: &Vec<PBXValue>, b: &Vec<PBXValue>) -> (r: bool)
    ensures
        r == (values_view(a@) == values_view(b@)),
    decreases a,
{
    if a.len() != b.len() {
        assert(values_view(a@).len() != values_view(b@).len());
        return false;
    }
    let mut i: usize = 0;
    while i < a.len()
        invariant
            i <= a.len(),
            a.len() == b.len(),
            forall|k: int| 0 <= k < i ==> values_view(a@)[k] == values_view(b@)[k],
        decreases a.len() - i,
    {
        if !same_value(&a[i], &b[i]) {
            assert(values_view(a@)[i as int] != values_view(b@)[i as int]);
            return false;
        }
        i += 1;
    }
    assert(values_view(a@) =~= values_view(b@));
    true
}

/// Whether two lists of fields hold the same fields in the same order.
pub fn same_entries(a: &Vec<(String, PBXValue)>, b: &Vec<(String, PBXValue)>) -> (r: bool)
    ensures
        r == (entries_view(a@) == entries_view(b@)),
    decreases a,
{
    if a.len() != b.len() {
        assert(entries_view(a@).len() != entries_view(b@).len());
        return false;
    }
    let mut i: usize = 0;
    while i < a.len()
        invariant
            i <= a.len(),
            a.len() == b.len(),
            forall|k: int| 0 <= k < i ==> entries_view(a@)[k] == entries_view(b@)[k],
        decreases a.len() - i,
    {
        if !same_text(a[i].0.as_str(), b[i].0.as_str()) || !same_value(&a[i].1, &b[i].1) {
            assert(entries_view(a@)[i as int] != entries_view(b@)[i as int]);
            return false;
        }
        i += 1;
    }
    assert(entries_view(a@) =~= entries_view(b@));
    true
}

impl Default for PBXHashMap {
    fn default() -> (r: Self)
        ensures
            r@ == Seq::<(Seq<char>, PBXValueView)>::empty(),
    {
        PBXHashMap::empty()
    }
}

impl Default for PBXVec {
    fn default() -> (r: Self)
        ensures
            r@ == Seq::<PBXValueView>::empty(),
    {
        let r = PBXVec(Vec::new());
        assert(r@ =~= Seq::<PBXValueView>::empty());
        r
    }
}

impl PartialEq for PBXValue {
    fn eq(&self, other: &Self) -> (r: bool) {
        same_value(self, other)
    }
}

impl vstd::std_specs::cmp::PartialEqSpecImpl for PBXValue {
    open spec fn obeys_eq_spec() -> bool {
        true
    }

    open spec fn eq_spec(&self, other: &Self) -> bool {
        self@ == other@
    }
}

impl Eq for PBXValue {

}

impl PartialEq for PBXHashMap {
    fn eq(&self, other: &Self) -> (r: bool) {
        same_entries(&self.entries, &other.entries)
    }
}

impl vstd::std_specs::cmp::PartialEqSpecImpl for PBXHashMap {
    open spec fn obeys_eq_spec() -> bool {
        true
    }

    open spec fn eq_spec(&self, other: &Self) -> bool {
        self@ == other@
    }
}

impl Eq for PBXHashMap {

}

impl PartialEq for PBXVec {
    fn eq(&self, other: &Self) -> (r: bool) {
        same_values(&self.0, &other.0)
    }
}

impl vstd::std_specs::cmp::PartialEqSpecImpl for PBXVec {
    open spec fn obeys_eq_spec() -> bool {
        true
    }

    open spec fn eq_spec(&self, other: &Self) -> bool {
        self@ == other@
    }
}

impl Eq for PBXVec {

}

} // verus!
