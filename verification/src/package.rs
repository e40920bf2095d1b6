//! Swift packages: references to remote packages, and the products that targets
//! depend on.
use vstd::prelude::*;
use crate::collection::{
    AsPBXObject, can_follow, kind_of_object, object_kind, PBXObjectCollection, start_trail, Trail,
    trail_has, trail_reaches, trail_view,
};
use crate::error::{error_within, PBXError, PBXErrorView, PBXValueKind, within};
use crate::kind::{PBXObjectKind, PBXObjectKindView};
use crate::lookup::built;
use crate::scheme::{after_last, find_after_last};
use crate::text::{chars_of, opt_text, same_opt_text, same_text, texts_view};
use crate::value::{
    entries_view, field_error, field_index_from, field_object, field_string, field_value,
    lemma_field_index, PBXHashMap, PBXHashMapView, PBXValue, PBXValueView, value_kind,
};

verus! {

/// Which versions of a Swift package are wanted.
#[derive(Debug)]
pub enum XCVersionRequirement {
    /// From the given version up to the next major version.
    UpToNextMajorVersion(String),
    /// From the given version up to the next minor version.
    UpToNextMinorVersion(String),
    /// Between the first and the second version.
    Range(String, String),
    /// Exactly the given version.
    Exact(String),
    /// The given branch of the repository.
    Branch(String),
    /// The given revision of the repository.
    Revision(String),
}

/// The mathematical value of an [`XCVersionRequirement`].
pub enum XCVersionRequirementView {
    UpToNextMajorVersion(Seq<char>),
    UpToNextMinorVersion(Seq<char>),
    Range(Seq<char>, Seq<char>),
    Exact(Seq<char>),
    Branch(Seq<char>),
    Revision(Seq<char>),
}

impl View for XCVersionRequirement {
    type V = XCVersionRequirementView;

    open spec fn view(&self) -> XCVersionRequirementView {
        match self {
            XCVersionRequirement::UpToNextMajorVersion(v) => XCVersionRequirementView::UpToNextMajorVersion(
                v@,
            ),
            XCVersionRequirement::UpToNextMinorVersion(v) => XCVersionRequirementView::UpToNextMinorVersion(
                v@,
            ),
            XCVersionRequirement::Range(a, b) => XCVersionRequirementView::Range(a@, b@),
            XCVersionRequirement::Exact(v) => XCVersionRequirementView::Exact(v@),
            XCVersionRequirement::Branch(v) => XCVersionRequirementView::Branch(v@),
            XCVersionRequirement::Revision(v) => XCVersionRequirementView::Revision(v@),
        }
    }
}

/// The mathematical value of a requirement that may be absent.
pub open spec fn opt_version_requirement_view(
    o: Option<XCVersionRequirement>,
) -> Option<XCVersionRequirementView> {
    match o {
        Some(r) => Some(r@),
        None => None,
    }
}

/// The requirement that the fields `m` describe: the field `kind` says which
/// rule it is, and names the further fields that the rule needs.
pub open spec fn version_requirement_of_fields(
    m: PBXHashMapView,
) -> Result<XCVersionRequirementView, PBXErrorView> {
    match field_string(m, "kind"@) {
        None => Err(field_error(m, "kind"@, PBXValueKind::String)),
        Some(kind) => if kind == "branch"@ {
            match field_string(m, "branch"@) {
                Some(v) => Ok(XCVersionRequirementView::Branch(v)),
                None => Err(field_error(m, "branch"@, PBXValueKind::String)),
            }
        } else if kind == "revision"@ {
            match field_string(m, "revision"@) {
                Some(v) => Ok(XCVersionRequirementView::Revision(v)),
                None => Err(field_error(m, "revision"@, PBXValueKind::String)),
            }
        } else if kind == "exactVersion"@ {
            match field_string(m, "version"@) {
                Some(v) => Ok(XCVersionRequirementView::Exact(v)),
                None => Err(field_error(m, "version"@, PBXValueKind::String)),
            }
        } else if kind == "versionRange"@ {
            match field_string(m, "minimumVersion"@) {
                None => Err(field_error(m, "minimumVersion"@, PBXValueKind::String)),
                Some(min) => match field_string(m, "maximumVersion"@) {
                    Some(max) => Ok(XCVersionRequirementView::Range(min, max)),
                    None => Err(field_error(m, "maximumVersion"@, PBXValueKind::String)),
                },
            }
        } else if kind == "upToNextMinorVersion"@ {
            match field_string(m, "minimumVersion"@) {
                Some(v) => Ok(XCVersionRequirementView::UpToNextMinorVersion(v)),
                None => Err(field_error(m, "minimumVersion"@, PBXValueKind::String)),
            }
        } else if kind == "upToNextMajorVersion"@ {
            match field_string(m, "minimumVersion"@) {
                Some(v) => Ok(XCVersionRequirementView::UpToNextMajorVersion(v)),
                None => Err(field_error(m, "minimumVersion"@, PBXValueKind::String)),
            }
        } else {
            Err(PBXErrorView::UnknownVersionRequirement { kind })
        },
    }
}

/// The requirement that the value `v` describes; `v` must be an object.
pub open spec fn version_requirement_of(
    v: PBXValueView,
) -> Result<XCVersionRequirementView, PBXErrorView> {
    match v {
        PBXValueView::Object(m) => version_requirement_of_fields(m),
        _ => Err(
            PBXErrorView::TypeMismatch { expected: PBXValueKind::Object, actual: value_kind(v) },
        ),
    }
}

/// The fields that describe the requirement `r`: `kind`, and what the rule
/// needs.
pub open spec fn version_requirement_fields(r: XCVersionRequirementView) -> PBXHashMapView {
    match r {
        XCVersionRequirementView::UpToNextMajorVersion(v) => seq![
            ("kind"@, PBXValueView::String("upToNextMajorVersion"@)),
            ("minimumVersion"@, PBXValueView::String(v)),
        ],
        XCVersionRequirementView::UpToNextMinorVersion(v) => seq![
            ("kind"@, PBXValueView::String("upToNextMinorVersion"@)),
            ("minimumVersion"@, PBXValueView::String(v)),
        ],
        XCVersionRequirementView::Range(min, max) => seq![
            ("kind"@, PBXValueView::String("versionRange"@)),
            ("minimumVersion"@, PBXValueView::String(min)),
            ("maximumVersion"@, PBXValueView::String(max)),
        ],
        XCVersionRequirementView::Exact(v) => seq![
            ("kind"@, PBXValueView::String("exactVersion"@)),
            ("version"@, PBXValueView::String(v)),
        ],
        XCVersionRequirementView::Branch(v) => seq![
            ("kind"@, PBXValueView::String("branch"@)),
            ("branch"@, PBXValueView::String(v)),
        ],
        XCVersionRequirementView::Revision(v) => seq![
            ("kind"@, PBXValueView::String("revision"@)),
            ("revision"@, PBXValueView::String(v)),
        ],
    }
}

/// A requirement is read back from the fields that describe it.
pub proof fn lemma_version_requirement_round_trip(r: XCVersionRequirementView)
    ensures
        version_requirement_of(PBXValueView::Object(version_requirement_fields(r))) == Ok::<
            XCVersionRequirementView,
            PBXErrorView,
        >(r),
{
    reveal_strlit("kind");
    reveal_strlit("minimumVersion");
    reveal_strlit("maximumVersion");
    reveal_strlit("version");
    reveal_strlit("branch");
    reveal_strlit("revision");
    reveal_strlit("upToNextMajorVersion");
    reveal_strlit("upToNextMinorVersion");
    reveal_strlit("versionRange");
    reveal_strlit("exactVersion");
    assert("kind"@.len() == 4);
    assert("minimumVersion"@.len() == 14);
    assert("maximumVersion"@.len() == 14);
    assert("version"@.len() == 7);
    assert("branch"@.len() == 6);
    assert("revision"@.len() == 8);
    assert("upToNextMajorVersion"@.len() == 20);
    assert("upToNextMinorVersion"@.len() == 20);
    assert("versionRange"@.len() == 12);
    assert("exactVersion"@.len() == 12);
    assert("minimumVersion"@[1] != "maximumVersion"@[1]);
    assert("upToNextMajorVersion"@[10] != "upToNextMinorVersion"@[10]);
    assert("versionRange"@[0] != "exactVersion"@[0]);
    let m = version_requirement_fields(r);
    reveal_with_fuel(field_index_from, 4);
    assert(field_string(m, "kind"@) is Some);
}

impl Clone for XCVersionRequirement {
    fn clone(&self) -> (r: Self)
        ensures
            r == *self,
    {
        match self {
            XCVersionRequirement::UpToNextMajorVersion(v) => XCVersionRequirement::UpToNextMajorVersion(
                v.clone(),
            ),
            XCVersionRequirement::UpToNextMinorVersion(v) => XCVersionRequirement::UpToNextMinorVersion(
                v.clone(),
            ),
            XCVersionRequirement::Range(a, b) => XCVersionRequirement::Range(a.clone(), b.clone()),
            XCVersionRequirement::Exact(v) => XCVersionRequirement::Exact(v.clone()),
            XCVersionRequirement::Branch(v) => XCVersionRequirement::Branch(v.clone()),
            XCVersionRequirement::Revision(v) => XCVersionRequirement::Revision(v.clone()),
        }
    }
}

impl PartialEq for XCVersionRequirement {
    fn eq(&self, other: &Self) -> (r: bool) {
        match (self, other) {
            (
                XCVersionRequirement::UpToNextMajorVersion(a),
                XCVersionRequirement::UpToNextMajorVersion(b),
            ) => same_text(a.as_str(), b.as_str()),
            (
                XCVersionRequirement::UpToNextMinorVersion(a),
                XCVersionRequirement::UpToNextMinorVersion(b),
            ) => same_text(a.as_str(), b.as_str()),
            (XCVersionRequirement::Range(a, b), XCVersionRequirement::Range(c, d)) => same_text(
                a.as_str(),
                c.as_str(),
            ) && same_text(b.as_str(), d.as_str()),
            (XCVersionRequirement::Exact(a), XCVersionRequirement::Exact(b)) => same_text(
                a.as_str(),
                b.as_str(),
            ),
            (XCVersionRequirement::Branch(a), XCVersionRequirement::Branch(b)) => same_text(
                a.as_str(),
                b.as_str(),
            ),
            (XCVersionRequirement::Revision(a), XCVersionRequirement::Revision(b)) => same_text(
                a.as_str(),
                b.as_str(),
            ),
            _ => false,
        }
    }
}

impl vstd::std_specs::cmp::PartialEqSpecImpl for XCVersionRequirement {
    open spec fn obeys_eq_spec() -> bool {
        true
    }

    open spec fn eq_spec(&self, other: &Self) -> bool {
        self@ == other@
    }
}

impl Eq for XCVersionRequirement {

}

impl XCVersionRequirement {
    /// The requirement that the fields `m` describe.
    pub fn try_from_fields(m: &PBXHashMap) -> (r: Result<XCVersionRequirement, PBXError>)
        ensures
            match r {
                Ok(x) => version_requirement_of_fields(m@) == Ok::<_, PBXErrorView>(x@),
                Err(e) => version_requirement_of_fields(m@) == Err::<XCVersionRequirementView, _>(
                    e@,
                ),
            },
    {
        let kind = m.try_get_string("kind")?;
        if same_text(kind.as_str(), "branch") {
            Ok(XCVersionRequirement::Branch(m.try_get_string("branch")?.clone()))
        } else if same_text(kind.as_str(), "revision") {
            Ok(XCVersionRequirement::Revision(m.try_get_string("revision")?.clone()))
        } else if same_text(kind.as_str(), "exactVersion") {
            Ok(XCVersionRequirement::Exact(m.try_get_string("version")?.clone()))
        } else if same_text(kind.as_str(), "versionRange") {
            let min = m.try_get_string("minimumVersion")?;
            let max = m.try_get_string("maximumVersion")?;
            Ok(XCVersionRequirement::Range(min.clone(), max.clone()))
        } else if same_text(kind.as_str(), "upToNextMinorVersion") {
            Ok(
                XCVersionRequirement::UpToNextMinorVersion(
                    m.try_get_string("minimumVersion")?.clone(),
                ),
            )
        } else if same_text(kind.as_str(), "upToNextMajorVersion") {
            Ok(
                XCVersionRequirement::UpToNextMajorVersion(
                    m.try_get_string("minimumVersion")?.clone(),
                ),
            )
        } else {
            Err(PBXError::UnknownVersionRequirement { kind: kind.clone() })
        }
    }

    /// The value that describes this requirement: an object with the field
    /// `kind` and the fields that the rule needs.
    pub fn to_value(&self) -> (r: PBXValue)
        ensures
            r@ == PBXValueView::Object(version_requirement_fields(self@)),
    {
        let mut entries: Vec<(String, PBXValue)> = Vec::new();
        match self {
            XCVersionRequirement::UpToNextMajorVersion(v) => {
                entries.push(
                    (String::from_str("kind"), PBXValue::String(String::from_str("upToNextMajorVersion"))),
                );
                entries.push((String::from_str("minimumVersion"), PBXValue::String(v.clone())));
            },
            XCVersionRequirement::UpToNextMinorVersion(v) => {
                entries.push(
                    (String::from_str("kind"), PBXValue::String(String::from_str("upToNextMinorVersion"))),
                );
                entries.push((String::from_str("minimumVersion"), PBXValue::String(v.clone())));
            },
            XCVersionRequirement::Range(min, max) => {
                entries.push(
                    (String::from_str("kind"), PBXValue::String(String::from_str("versionRange"))),
                );
                entries.push((String::from_str("minimumVersion"), PBXValue::String(min.clone())));
                entries.push((String::from_str("maximumVersion"), PBXValue::String(max.clone())));
            },
            XCVersionRequirement::Exact(v) => {
                entries.push(
                    (String::from_str("kind"), PBXValue::String(String::from_str("exactVersion"))),
                );
                entries.push((String::from_str("version"), PBXValue::String(v.clone())));
            },
            XCVersionRequirement::Branch(v) => {
                entries.push(
                    (String::from_str("kind"), PBXValue::String(String::from_str("branch"))),
                );
                entries.push((String::from_str("branch"), PBXValue::String(v.clone())));
            },
            XCVersionRequirement::Revision(v) => {
                entries.push(
                    (String::from_str("kind"), PBXValue::String(String::from_str("revision"))),
                );
                entries.push((String::from_str("revision"), PBXValue::String(v.clone())));
            },
        }
        let r = PBXValue::Object(PBXHashMap { entries });
        assert(entries_view(entries@) =~= version_requirement_fields(self@));
        r
    }

    /// The requirement that the value `value` describes: an error when it is
    /// no object, when a field that the rule needs is missing, or when the
    /// rule is not known.
    pub fn try_from_value(value: &PBXValue) -> (r: Result<XCVersionRequirement, PBXError>)
        ensures
            match r {
                Ok(x) => version_requirement_of(value@) == Ok::<_, PBXErrorView>(x@),
                Err(e) => version_requirement_of(value@) == Err::<XCVersionRequirementView, _>(e@),
            },
    {
        match value {
            PBXValue::Object(m) => XCVersionRequirement::try_from_fields(m),
            other => Err(
                PBXError::TypeMismatch { expected: PBXValueKind::Object, actual: other.kind() },
            ),
        }
    }
}

/// A reference to a remote Swift package.
#[derive(Debug)]
pub struct XCRemoteSwiftPackageReference {
    /// The identifier of the object.
    pub id: String,
    /// The address of the repository.
    pub repository_url: Option<String>,
    /// Which versions of the package are wanted.
    pub version_requirement: Option<XCVersionRequirement>,
}

/// The mathematical value of an [`XCRemoteSwiftPackageReference`].
pub struct XCRemoteSwiftPackageReferenceView {
    pub id: Seq<char>,
    pub repository_url: Option<Seq<char>>,
    pub version_requirement: Option<XCVersionRequirementView>,
}

/// The mathematical value of `x`.
pub open spec fn swift_package_reference_view(
    x: XCRemoteSwiftPackageReference,
) -> XCRemoteSwiftPackageReferenceView {
    XCRemoteSwiftPackageReferenceView {
        id: x.id@,
        repository_url: opt_text(x.repository_url),
        version_requirement: opt_version_requirement_view(x.version_requirement),
    }
}

/// The mathematical values of a list.
pub open spec fn swift_package_references_view(
    s: Seq<XCRemoteSwiftPackageReference>,
) -> Seq<XCRemoteSwiftPackageReferenceView> {
    Seq::new(s.len(), |i: int| swift_package_reference_view(s[i]))
}

/// The mathematical value of what may be absent.
pub open spec fn opt_swift_package_reference_view(
    o: Option<XCRemoteSwiftPackageReference>,
) -> Option<XCRemoteSwiftPackageReferenceView> {
    match o {
        Some(x) => Some(swift_package_reference_view(x)),
        None => None,
    }
}

impl View for XCRemoteSwiftPackageReference {
    type V = XCRemoteSwiftPackageReferenceView;

    open spec fn view(&self) -> XCRemoteSwiftPackageReferenceView {
        swift_package_reference_view(*self)
    }
}

/// The reference to a remote Swift package that the fields `fields` of the object `id` describe,
/// built while the objects on `trail` are being built, this one among them.
/// The kind of the object is tested first, then the fields that must be
/// there, in the order of the fields of the result: the first that fails
/// gives the error.
pub open spec fn swift_package_reference_of(
    objects: PBXHashMapView,
    id: Seq<char>,
    fields: PBXHashMapView,
    trail: Seq<Seq<char>>,
) -> Result<XCRemoteSwiftPackageReferenceView, PBXErrorView>
    decreases objects.len() - trail.len(), 2int, 0int,
{
    match object_kind(fields) {
        Err(e) => Err(error_within(e, id)),
        Ok(PBXObjectKindView::XCRemoteSwiftPackageReference) => {
            Ok(XCRemoteSwiftPackageReferenceView {
                id,
                repository_url: field_string(fields, "repositoryURL"@),
                version_requirement: match field_value(fields, "requirement"@) {
                    Some(v) => match version_requirement_of(v) {
                        Ok(requirement) => Some(requirement),
                        Err(_) => None,
                    },
                    None => None,
                },
            })
        },
        Ok(_) => Err(PBXErrorView::KindMismatch { id }),
    }
}

/// The reference to a remote Swift package that the reference `id` leads to from the trail
/// `trail`: nothing when the reference is not followed, when it dangles, or
/// when the object cannot be built.
pub open spec fn get_swift_package_reference(
    objects: PBXHashMapView,
    id: Seq<char>,
    trail: Seq<Seq<char>>,
) -> Option<XCRemoteSwiftPackageReferenceView>
    decreases objects.len() - trail.len(), 0int, 0int,
{
    if !can_follow(objects, id, trail) {
        None
    } else {
        match field_object(objects, id) {
            None => None,
            Some(fields) => match swift_package_reference_of(objects, id, fields, trail.push(id)) {
                Ok(x) => Some(x),
                Err(_) => None,
            },
        }
    }
}

/// What the references `ids` lead to, in order: a reference that leads to
/// nothing is left out.
pub open spec fn get_swift_package_references(
    objects: PBXHashMapView,
    ids: Seq<Seq<char>>,
    trail: Seq<Seq<char>>,
) -> Seq<XCRemoteSwiftPackageReferenceView>
    decreases objects.len() - trail.len(), 1int, ids.len(),
{
    if ids.len() == 0 {
        Seq::empty()
    } else {
        match get_swift_package_reference(objects, ids.last(), trail) {
            Some(x) => get_swift_package_references(objects, ids.drop_last(), trail).push(x),
            None => get_swift_package_references(objects, ids.drop_last(), trail),
        }
    }
}

/// Asked for by its type, a reference to a remote Swift package is what the
/// reference to it leads to
/// from the empty trail.
pub proof fn lemma_built_swift_package_reference(objects: PBXHashMapView, id: Seq<char>)
    ensures
        built::<XCRemoteSwiftPackageReference>(objects, id) == get_swift_package_reference(
            objects,
            id,
            Seq::empty(),
        ),
{
    lemma_field_index(objects, id);
    assert(Seq::<Seq<char>>::empty().push(id) =~= seq![id]);
}

/// What the references of two lists lead to, one list after the other, is what
/// the references of the two lists joined lead to.
pub proof fn lemma_get_swift_package_references_of_joined(
    objects: PBXHashMapView,
    a: Seq<Seq<char>>,
    b: Seq<Seq<char>>,
    trail: Seq<Seq<char>>,
)
    ensures
        get_swift_package_references(objects, a + b, trail) == get_swift_package_references(objects, a, trail) + get_swift_package_references(
            objects,
            b,
            trail,
        ),
    decreases b.len(),
{
    if b.len() == 0 {
        assert(a + b =~= a);
        assert(get_swift_package_references(objects, a, trail) + get_swift_package_references(objects, b, trail)
            =~= get_swift_package_references(objects, a, trail));
    } else {
        lemma_get_swift_package_references_of_joined(objects, a, b.drop_last(), trail);
        assert((a + b).drop_last() =~= a + b.drop_last());
        assert((a + b).last() == b.last());
        match get_swift_package_reference(objects, b.last(), trail) {
            Some(x) => {
                assert((get_swift_package_references(objects, a, trail) + get_swift_package_references(
                    objects,
                    b.drop_last(),
                    trail,
                )).push(x) =~= get_swift_package_references(objects, a, trail) + get_swift_package_references(
                    objects,
                    b.drop_last(),
                    trail,
                ).push(x));
            },
            None => {},
        }
    }
}

/// A dangling reference in a list of references is passed over: the list
/// leads to what it leads to without it.
pub proof fn lemma_get_swift_package_references_skips_dangling(
    objects: PBXHashMapView,
    before: Seq<Seq<char>>,
    dangling: Seq<char>,
    after: Seq<Seq<char>>,
    trail: Seq<Seq<char>>,
)
    requires
        field_object(objects, dangling) is None,
    ensures
        get_swift_package_references(objects, before + seq![dangling] + after, trail) == get_swift_package_references(
            objects,
            before + after,
            trail,
        ),
{
    lemma_get_swift_package_references_of_joined(objects, before + seq![dangling], after, trail);
    lemma_get_swift_package_references_of_joined(objects, before, seq![dangling], trail);
    lemma_get_swift_package_references_of_joined(objects, before, after, trail);
    assert(seq![dangling].drop_last() =~= Seq::<Seq<char>>::empty());
    assert(get_swift_package_references(objects, seq![dangling], trail) =~= Seq::empty()) by {
        reveal_with_fuel(get_swift_package_references, 2);
    }
    assert(get_swift_package_references(objects, before, trail) + Seq::empty() =~= get_swift_package_references(
        objects,
        before,
        trail,
    ));
}

/// Builds the reference to a remote Swift package that `fields` describe.
pub fn swift_package_reference_from(
    objects: &PBXObjectCollection,
    id: &str,
    fields: &PBXHashMap,
    trail: Option<&Trail>,
) -> (r: Result<XCRemoteSwiftPackageReference, PBXError>)
    ensures
        match r {
            Ok(x) => swift_package_reference_of(objects@, id@, fields@, trail_view(trail)) == Ok::<
                XCRemoteSwiftPackageReferenceView,
                PBXErrorView,
            >(swift_package_reference_view(x)),
            Err(e) => swift_package_reference_of(objects@, id@, fields@, trail_view(trail))
                == Err::<
                XCRemoteSwiftPackageReferenceView,
                PBXErrorView,
            >(e@),
        },
    decreases objects@.len() - trail_view(trail).len(), 2int, 0int,
{
    match within(kind_of_object(fields), id)? {
        PBXObjectKind::XCRemoteSwiftPackageReference => {},
        _ => return Err(PBXError::KindMismatch { id: String::from_str(id) }),
    }
    let repository_url = fields.text("repositoryURL");
    let version_requirement = match fields.get_value("requirement") {
        Some(v) => match XCVersionRequirement::try_from_value(v) {
            Ok(requirement) => Some(requirement),
            Err(_) => None,
        },
        None => None,
    };
    Ok(XCRemoteSwiftPackageReference {
        id: String::from_str(id),
        repository_url,
        version_requirement,
    })
}

/// Follows the reference `id` to a reference to a remote Swift package.
pub fn swift_package_reference_at(
    objects: &PBXObjectCollection,
    id: &str,
    trail: Option<&Trail>,
) -> (r: Option<XCRemoteSwiftPackageReference>)
    ensures
        opt_swift_package_reference_view(r) == get_swift_package_reference(
            objects@,
            id@,
            trail_view(trail),
        ),
    decreases objects@.len() - trail_view(trail).len(), 0int, 0int,
{
    if trail_reaches(trail, objects.len()) || trail_has(trail, id) {
        return None;
    }
    match objects.object(id) {
        None => None,
        Some(fields) => {
            let step = Trail { id, rest: trail };
            match swift_package_reference_from(objects, id, fields, Some(&step)) {
                Ok(x) => Some(x),
                Err(_) => None,
            }
        },
    }
}

/// Follows the references `ids`, and leaves out those that lead to nothing.
pub fn swift_package_references_at(
    objects: &PBXObjectCollection,
    ids: &Vec<String>,
    trail: Option<&Trail>,
) -> (r: Vec<XCRemoteSwiftPackageReference>)
    ensures
        swift_package_references_view(r@) == get_swift_package_references(
            objects@,
            texts_view(ids@),
            trail_view(trail),
        ),
    decreases objects@.len() - trail_view(trail).len(), 1int, ids@.len(),
{
    let ghost all = texts_view(ids@);
    let mut out: Vec<XCRemoteSwiftPackageReference> = Vec::new();
    let mut i: usize = 0;
    assert(swift_package_references_view(out@) =~= Seq::empty());
    assert(all.take(0) =~= Seq::empty());
    while i < ids.len()
        invariant
            i <= ids.len(),
            all == texts_view(ids@),
            swift_package_references_view(out@) == get_swift_package_references(
                objects@,
                all.take(i as int),
                trail_view(trail),
            ),
        decreases ids.len() - i,
    {
        assert(all.take(i + 1).drop_last() =~= all.take(i as int));
        assert(all.take(i + 1).last() == ids@[i as int]@);
        let ghost before = swift_package_references_view(out@);
        match swift_package_reference_at(objects, ids[i].as_str(), trail) {
            Some(x) => {
                out.push(x);
                assert(swift_package_references_view(out@) =~= before.push(swift_package_reference_view(x)));
            },
            None => {},
        }
        i += 1;
    }
    assert(all.take(ids.len() as int) =~= all);
    out
}

impl<'a> AsPBXObject<'a> for XCRemoteSwiftPackageReference {
    open spec fn described_by(
        objects: PBXHashMapView,
        id: Seq<char>,
        fields: PBXHashMapView,
    ) -> Result<XCRemoteSwiftPackageReferenceView, PBXErrorView> {
        swift_package_reference_of(objects, id, fields, start_trail(objects, id))
    }

    /// The reference to a remote Swift package that the fields `value` of the object `id` describe,
    /// with what it refers to taken from `objects`. Fails when the object is
    /// of another kind or lacks a field that it must have.
    fn as_pbx_object(
        id: String,
        value: &'a PBXHashMap,
        objects: &'a PBXObjectCollection,
    ) -> (r: Result<XCRemoteSwiftPackageReference, PBXError>) {
        if objects.0.contains_key(id.as_str()) {
            let step = Trail { id: id.as_str(), rest: None };
            proof {
                reveal_with_fuel(trail_view, 2);
                assert(trail_view(Some(&step)) =~= seq![id@]);
            }
            swift_package_reference_from(objects, id.as_str(), value, Some(&step))
        } else {
            swift_package_reference_from(objects, id.as_str(), value, None)
        }
    }
}

/// Whether two references to remote packages say the same: the address of the
/// repository and the version requirement are compared, the identifier is
/// not.
pub open spec fn swift_package_reference_same(
    a: XCRemoteSwiftPackageReferenceView,
    b: XCRemoteSwiftPackageReferenceView,
) -> bool {
    a.repository_url == b.repository_url && a.version_requirement == b.version_requirement
}

/// The name of the package at the address `url`: what follows the last `/`.
pub open spec fn package_name_of(url: Seq<char>) -> Seq<char> {
    url.subrange(after_last(url, '/', url.len() as int), url.len() as int)
}

impl PartialEq for XCRemoteSwiftPackageReference {
    fn eq(&self, other: &Self) -> (r: bool) {
        let same_requirement = match (&self.version_requirement, &other.version_requirement) {
            (Some(a), Some(b)) => *a == *b,
            (None, None) => true,
            _ => false,
        };
        same_opt_text(&self.repository_url, &other.repository_url) && same_requirement
    }
}

impl vstd::std_specs::cmp::PartialEqSpecImpl for XCRemoteSwiftPackageReference {
    open spec fn obeys_eq_spec() -> bool {
        true
    }

    open spec fn eq_spec(&self, other: &Self) -> bool {
        swift_package_reference_same(self@, other@)
    }
}

impl Eq for XCRemoteSwiftPackageReference {

}

impl XCRemoteSwiftPackageReference {
    /// The name of the package: what follows the last `/` of the address of
    /// the repository; nothing when there is no address.
    pub fn name(&self) -> (r: Option<&str>)
        ensures
            match r {
                Some(name) => self@.repository_url is Some && name@ == package_name_of(
                    self@.repository_url->Some_0,
                ),
                None => self@.repository_url is None,
            },
    {
        match &self.repository_url {
            Some(url) => {
                let chars = chars_of(url.as_str());
                let start = find_after_last(&chars, '/');
                Some(url.as_str().substring_char(start, chars.len()))
            },
            None => None,
        }
    }

    /// Which versions of the package are wanted.
    pub fn version_requirement(&self) -> (r: Option<&XCVersionRequirement>)
        ensures
            match r {
                Some(requirement) => self.version_requirement == Some(*requirement),
                None => self.version_requirement is None,
            },
    {
        match &self.version_requirement {
            Some(requirement) => Some(requirement),
            None => None,
        }
    }

    /// Sets which versions of the package are wanted.
    pub fn set_version_requirement(&mut self, version_requirement: Option<XCVersionRequirement>)
        ensures
            *final(self) == (XCRemoteSwiftPackageReference { version_requirement, ..*old(self) }),
    {
        self.version_requirement = version_requirement;
    }
}

/// A product of a Swift package that a target depends on.
#[derive(Debug)]
pub struct XCSwiftPackageProductDependency {
    /// The identifier of the object.
    pub id: String,
    /// The name of the product.
    pub product_name: String,
    /// The package that the product comes from.
    pub package: Option<XCRemoteSwiftPackageReference>,
}

/// The mathematical value of an [`XCSwiftPackageProductDependency`].
pub struct XCSwiftPackageProductDependencyView {
    pub id: Seq<char>,
    pub product_name: Seq<char>,
    pub package: Option<XCRemoteSwiftPackageReferenceView>,
}

/// The mathematical value of `x`.
pub open spec fn swift_package_product_dependency_view(
    x: XCSwiftPackageProductDependency,
) -> XCSwiftPackageProductDependencyView {
    XCSwiftPackageProductDependencyView {
        id: x.id@,
        product_name: x.product_name@,
        package: opt_swift_package_reference_view(x.package),
    }
}

/// The mathematical values of a list.
pub open spec fn swift_package_product_dependencies_view(
    s: Seq<XCSwiftPackageProductDependency>,
) -> Seq<XCSwiftPackageProductDependencyView> {
    Seq::new(s.len(), |i: int| swift_package_product_dependency_view(s[i]))
}

/// The mathematical value of what may be absent.
pub open spec fn opt_swift_package_product_dependency_view(
    o: Option<XCSwiftPackageProductDependency>,
) -> Option<XCSwiftPackageProductDependencyView> {
    match o {
        Some(x) => Some(swift_package_product_dependency_view(x)),
        None => None,
    }
}

impl View for XCSwiftPackageProductDependency {
    type V = XCSwiftPackageProductDependencyView;

    open spec fn view(&self) -> XCSwiftPackageProductDependencyView {
        swift_package_product_dependency_view(*self)
    }
}

/// The Swift package product dependency that the fields `fields` of the object `id` describe,
/// built while the objects on `trail` are being built, this one among them.
/// The kind of the object is tested first, then the fields that must be
/// there, in the order of the fields of the result: the first that fails
/// gives the error.
pub open spec fn swift_package_product_dependency_of(
    objects: PBXHashMapView,
    id: Seq<char>,
    fields: PBXHashMapView,
    trail: Seq<Seq<char>>,
) -> Result<XCSwiftPackageProductDependencyView, PBXErrorView>
    decreases objects.len() - trail.len(), 2int, 0int,
{
    match object_kind(fields) {
        Err(e) => Err(error_within(e, id)),
        Ok(PBXObjectKindView::XCSwiftPackageProductDependency) => {
            if field_string(fields, "productName"@) is None {
                Err(error_within(field_error(fields, "productName"@, PBXValueKind::String), id))
            } else {
                Ok(XCSwiftPackageProductDependencyView {
                    id,
                    product_name: field_string(fields, "productName"@).unwrap(),
                    package: match field_string(fields, "package"@) {
                        Some(key) => get_swift_package_reference(objects, key, trail),
                        None => None,
                    },
                })
            }
        },
        Ok(_) => Err(PBXErrorView::KindMismatch { id }),
    }
}

/// The Swift package product dependency that the reference `id` leads to from the trail
/// `trail`: nothing when the reference is not followed, when it dangles, or
/// when the object cannot be built.
pub open spec fn get_swift_package_product_dependency(
    objects: PBXHashMapView,
    id: Seq<char>,
    trail: Seq<Seq<char>>,
) -> Option<XCSwiftPackageProductDependencyView>
    decreases objects.len() - trail.len(), 0int, 0int,
{
    if !can_follow(objects, id, trail) {
        None
    } else {
        match field_object(objects, id) {
            None => None,
            Some(fields) => match swift_package_product_dependency_of(objects, id, fields, trail.push(id)) {
                Ok(x) => Some(x),
                Err(_) => None,
            },
        }
    }
}

/// What the references `ids` lead to, in order: a reference that leads to
/// nothing is left out.
pub open spec fn get_swift_package_product_dependencies(
    objects: PBXHashMapView,
    ids: Seq<Seq<char>>,
    trail: Seq<Seq<char>>,
) -> Seq<XCSwiftPackageProductDependencyView>
    decreases objects.len() - trail.len(), 1int, ids.len(),
{
    if ids.len() == 0 {
        Seq::empty()
    } else {
        match get_swift_package_product_dependency(objects, ids.last(), trail) {
            Some(x) => get_swift_package_product_dependencies(objects, ids.drop_last(), trail).push(
                x,
            ),
            None => get_swift_package_product_dependencies(objects, ids.drop_last(), trail),
        }
    }
}

/// Asked for by its type, a Swift package product dependency is what the reference to it leads to
/// from the empty trail.
pub proof fn lemma_built_swift_package_product_dependency(objects: PBXHashMapView, id: Seq<char>)
    ensures
        built::<XCSwiftPackageProductDependency>(objects, id)
            == get_swift_package_product_dependency(objects, id, Seq::empty()),
{
    lemma_field_index(objects, id);
    assert(Seq::<Seq<char>>::empty().push(id) =~= seq![id]);
}

/// What the references of two lists lead to, one list after the other, is what
/// the references of the two lists joined lead to.
pub proof fn lemma_get_swift_package_product_dependencies_of_joined(
    objects: PBXHashMapView,
    a: Seq<Seq<char>>,
    b: Seq<Seq<char>>,
    trail: Seq<Seq<char>>,
)
    ensures
        get_swift_package_product_dependencies(objects, a + b, trail) == get_swift_package_product_dependencies(objects, a, trail) + get_swift_package_product_dependencies(
            objects,
            b,
            trail,
        ),
    decreases b.len(),
{
    if b.len() == 0 {
        assert(a + b =~= a);
        assert(get_swift_package_product_dependencies(objects, a, trail) + get_swift_package_product_dependencies(objects, b, trail)
            =~= get_swift_package_product_dependencies(objects, a, trail));
    } else {
        lemma_get_swift_package_product_dependencies_of_joined(objects, a, b.drop_last(), trail);
        assert((a + b).drop_last() =~= a + b.drop_last());
        assert((a + b).last() == b.last());
        match get_swift_package_product_dependency(objects, b.last(), trail) {
            Some(x) => {
                assert((get_swift_package_product_dependencies(objects, a, trail) + get_swift_package_product_dependencies(
                    objects,
                    b.drop_last(),
                    trail,
                )).push(x) =~= get_swift_package_product_dependencies(objects, a, trail) + get_swift_package_product_dependencies(
                    objects,
                    b.drop_last(),
                    trail,
                ).push(x));
            },
            None => {},
        }
    }
}

/// A dangling reference in a list of references is passed over: the list
/// leads to what it leads to without it.
pub proof fn lemma_get_swift_package_product_dependencies_skips_dangling(
    objects: PBXHashMapView,
    before: Seq<Seq<char>>,
    dangling: Seq<char>,
    after: Seq<Seq<char>>,
    trail: Seq<Seq<char>>,
)
    requires
        field_object(objects, dangling) is None,
    ensures
        get_swift_package_product_dependencies(objects, before + seq![dangling] + after, trail) == get_swift_package_product_dependencies(
            objects,
            before + after,
            trail,
        ),
{
    lemma_get_swift_package_product_dependencies_of_joined(
        objects,
        before + seq![dangling],
        after,
        trail,
    );
    lemma_get_swift_package_product_dependencies_of_joined(objects, before, seq![dangling], trail);
    lemma_get_swift_package_product_dependencies_of_joined(objects, before, after, trail);
    assert(seq![dangling].drop_last() =~= Seq::<Seq<char>>::empty());
    assert(get_swift_package_product_dependencies(objects, seq![dangling], trail) =~= Seq::empty()) by {
        reveal_with_fuel(get_swift_package_product_dependencies, 2);
    }
    assert(get_swift_package_product_dependencies(objects, before, trail) + Seq::empty() =~= get_swift_package_product_dependencies(
        objects,
        before,
        trail,
    ));
}

/// Builds the Swift package product dependency that `fields` describe.
pub fn swift_package_product_dependency_from(
    objects: &PBXObjectCollection,
    id: &str,
    fields: &PBXHashMap,
    trail: Option<&Trail>,
) -> (r: Result<XCSwiftPackageProductDependency, PBXError>)
    ensures
        match r {
            Ok(x) => swift_package_product_dependency_of(objects@, id@, fields@, trail_view(trail))
                == Ok::<
                XCSwiftPackageProductDependencyView,
                PBXErrorView,
            >(swift_package_product_dependency_view(x)),
            Err(e) => swift_package_product_dependency_of(objects@, id@, fields@, trail_view(trail))
                == Err::<
                XCSwiftPackageProductDependencyView,
                PBXErrorView,
            >(e@),
        },
    decreases objects@.len() - trail_view(trail).len(), 2int, 0int,
{
    match within(kind_of_object(fields), id)? {
        PBXObjectKind::XCSwiftPackageProductDependency => {},
        _ => return Err(PBXError::KindMismatch { id: String::from_str(id) }),
    }
    let product_name = within(fields.try_get_string("productName"), id)?.clone();
    let package = match fields.get_string("package") {
        Some(key) => swift_package_reference_at(objects, key.as_str(), trail),
        None => None,
    };
    Ok(XCSwiftPackageProductDependency {
        id: String::from_str(id),
        product_name,
        package,
    })
}

/// Follows the reference `id` to a Swift package product dependency.
pub fn swift_package_product_dependency_at(
    objects: &PBXObjectCollection,
    id: &str,
    trail: Option<&Trail>,
) -> (r: Option<XCSwiftPackageProductDependency>)
    ensures
        opt_swift_package_product_dependency_view(r) == get_swift_package_product_dependency(
            objects@,
            id@,
            trail_view(trail),
        ),
    decreases objects@.len() - trail_view(trail).len(), 0int, 0int,
{
    if trail_reaches(trail, objects.len()) || trail_has(trail, id) {
        return None;
    }
    match objects.object(id) {
        None => None,
        Some(fields) => {
            let step = Trail { id, rest: trail };
            match swift_package_product_dependency_from(objects, id, fields, Some(&step)) {
                Ok(x) => Some(x),
                Err(_) => None,
            }
        },
    }
}

/// Follows the references `ids`, and leaves out those that lead to nothing.
pub fn swift_package_product_dependencies_at(
    objects: &PBXObjectCollection,
    ids: &Vec<String>,
    trail: Option<&Trail>,
) -> (r: Vec<XCSwiftPackageProductDependency>)
    ensures
        swift_package_product_dependencies_view(r@) == get_swift_package_product_dependencies(
            objects@,
            texts_view(ids@),
            trail_view(trail),
        ),
    decreases objects@.len() - trail_view(trail).len(), 1int, ids@.len(),
{
    let ghost all = texts_view(ids@);
    let mut out: Vec<XCSwiftPackageProductDependency> = Vec::new();
    let mut i: usize = 0;
    assert(swift_package_product_dependencies_view(out@) =~= Seq::empty());
    assert(all.take(0) =~= Seq::empty());
    while i < ids.len()
        invariant
            i <= ids.len(),
            all == texts_view(ids@),
            swift_package_product_dependencies_view(out@) == get_swift_package_product_dependencies(
                objects@,
                all.take(i as int),
                trail_view(trail),
            ),
        decreases ids.len() - i,
    {
        assert(all.take(i + 1).drop_last() =~= all.take(i as int));
        assert(all.take(i + 1).last() == ids@[i as int]@);
        let ghost before = swift_package_product_dependencies_view(out@);
        match swift_package_product_dependency_at(objects, ids[i].as_str(), trail) {
            Some(x) => {
                out.push(x);
                assert(swift_package_product_dependencies_view(out@) =~= before.push(swift_package_product_dependency_view(x)));
            },
            None => {},
        }
        i += 1;
    }
    assert(all.take(ids.len() as int) =~= all);
    out
}

impl<'a> AsPBXObject<'a> for XCSwiftPackageProductDependency {
    open spec fn described_by(
        objects: PBXHashMapView,
        id: Seq<char>,
        fields: PBXHashMapView,
    ) -> Result<XCSwiftPackageProductDependencyView, PBXErrorView> {
        swift_package_product_dependency_of(objects, id, fields, start_trail(objects, id))
    }

    /// The Swift package product dependency that the fields `value` of the object `id` describe,
    /// with what it refers to taken from `objects`. Fails when the object is
    /// of another kind or lacks a field that it must have.
    fn as_pbx_object(
        id: String,
        value: &'a PBXHashMap,
        objects: &'a PBXObjectCollection,
    ) -> (r: Result<XCSwiftPackageProductDependency, PBXError>) {
        if objects.0.contains_key(id.as_str()) {
            let step = Trail { id: id.as_str(), rest: None };
            proof {
                reveal_with_fuel(trail_view, 2);
                assert(trail_view(Some(&step)) =~= seq![id@]);
            }
            swift_package_product_dependency_from(objects, id.as_str(), value, Some(&step))
        } else {
            swift_package_product_dependency_from(objects, id.as_str(), value, None)
        }
    }
}

} // verus!
