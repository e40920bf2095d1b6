//! The project object.
use vstd::prelude::*;
use crate::collection::{
    AsPBXObject, can_follow, kind_of_object, object_kind, PBXObjectCollection, start_trail, Trail,
    trail_has, trail_reaches, trail_view,
};
use crate::configuration::{
    configuration_list_at, configuration_list_view, get_configuration_list, XCConfigurationList,
    XCConfigurationListView,
};
use crate::error::{error_within, PBXError, PBXErrorView, PBXValueKind, within};
use crate::fs_reference::{
    fs_reference_at, fs_reference_view, get_fs_reference, opt_fs_reference_view, PBXFSReference,
    PBXFSReferenceView,
};
use crate::kind::{PBXObjectKind, PBXObjectKindView};
use crate::lookup::built;
use crate::package::{
    get_swift_package_references, swift_package_references_at, swift_package_references_view,
    XCRemoteSwiftPackageReference, XCRemoteSwiftPackageReferenceView,
};
use crate::target::{get_targets, PBXTarget, PBXTargetView, targets_at, targets_view};
use crate::text::{opt_text, same_text, texts_view};
use crate::value::{
    field_error, field_ids, field_number, field_object, field_string, field_texts, field_value,
    field_vec, lemma_field_index, named_objects_view, object_entries, PBXHashMap, PBXHashMapView,
    strings_of,
};

verus! {

/// The project.
#[derive(Debug)]
pub struct PBXProject<'a> {
    /// The identifier of the object.
    pub id: String,
    /// The name.
    pub name: Option<String>,
    /// The version of Xcode that the file is compatible with.
    pub compatibility_version: String,
    /// The region of development.
    pub development_region: Option<String>,
    /// Whether the encodings of the files were scanned.
    pub has_scanned_for_encodings: isize,
    /// The regions of the localized files.
    pub known_regions: Vec<String>,
    /// The path of the directory of the project.
    pub project_dir_path: String,
    /// The root paths of the project.
    pub project_roots: Vec<String>,
    /// The main group.
    pub main_group: PBXFSReference,
    /// The group that holds the products.
    pub products_group: Option<PBXFSReference>,
    /// The attributes of the project.
    pub attributes: Option<&'a PBXHashMap>,
    /// The attributes of the targets, each under the identifier of its target.
    pub target_attributes: Vec<(String, &'a PBXHashMap)>,
    /// The Swift packages.
    pub packages: Vec<XCRemoteSwiftPackageReference>,
    /// The build configurations.
    pub build_configuration_list: XCConfigurationList<'a>,
    /// The targets.
    pub targets: Vec<PBXTarget<'a>>,
}

/// The mathematical value of a [`PBXProject`].
pub struct PBXProjectView {
    pub id: Seq<char>,
    pub name: Option<Seq<char>>,
    pub compatibility_version: Seq<char>,
    pub development_region: Option<Seq<char>>,
    pub has_scanned_for_encodings: int,
    pub known_regions: Seq<Seq<char>>,
    pub project_dir_path: Seq<char>,
    pub project_roots: Seq<Seq<char>>,
    pub main_group: PBXFSReferenceView,
    pub products_group: Option<PBXFSReferenceView>,
    pub attributes: Option<PBXHashMapView>,
    pub target_attributes: Seq<(Seq<char>, PBXHashMapView)>,
    pub packages: Seq<XCRemoteSwiftPackageReferenceView>,
    pub build_configuration_list: XCConfigurationListView,
    pub targets: Seq<PBXTargetView>,
}

/// The mathematical value of `x`.
pub open spec fn project_view(x: PBXProject) -> PBXProjectView {
    PBXProjectView {
        id: x.id@,
        name: opt_text(x.name),
        compatibility_version: x.compatibility_version@,
        development_region: opt_text(x.development_region),
        has_scanned_for_encodings: x.has_scanned_for_encodings as int,
        known_regions: texts_view(x.known_regions@),
        project_dir_path: x.project_dir_path@,
        project_roots: texts_view(x.project_roots@),
        main_group: fs_reference_view(x.main_group),
        products_group: opt_fs_reference_view(x.products_group),
        attributes: match x.attributes {
            Some(m) => Some(m@),
            None => None,
        },
        target_attributes: named_objects_view(x.target_attributes@),
        packages: swift_package_references_view(x.packages@),
        build_configuration_list: configuration_list_view(x.build_configuration_list),
        targets: targets_view(x.targets@),
    }
}

/// The mathematical values of a list.
pub open spec fn projects_view(s: Seq<PBXProject>) -> Seq<PBXProjectView> {
    Seq::new(s.len(), |i: int| project_view(s[i]))
}

/// The mathematical value of what may be absent.
pub open spec fn opt_project_view(o: Option<PBXProject>) -> Option<PBXProjectView> {
    match o {
        Some(x) => Some(project_view(x)),
        None => None,
    }
}

impl<'a> View for PBXProject<'a> {
    type V = PBXProjectView;

    open spec fn view(&self) -> PBXProjectView {
        project_view(*self)
    }
}

/// The project that the fields `fields` of the object `id` describe,
/// built while the objects on `trail` are being built, this one among them.
/// The kind of the object is tested first, then the fields that must be
/// there, in the order of the fields of the result: the first that fails
/// gives the error.
pub open spec fn project_of(
    objects: PBXHashMapView,
    id: Seq<char>,
    fields: PBXHashMapView,
    trail: Seq<Seq<char>>,
) -> Result<PBXProjectView, PBXErrorView>
    decreases objects.len() - trail.len(), 2int, 0int,
{
    match object_kind(fields) {
        Err(e) => Err(error_within(e, id)),
        Ok(PBXObjectKindView::PBXProject) => {
            if field_string(fields, "compatibilityVersion"@) is None {
                Err(
                    error_within(
                        field_error(fields, "compatibilityVersion"@, PBXValueKind::String),
                        id,
                    ),
                )
            } else if field_number(fields, "hasScannedForEncodings"@) is None {
                Err(
                    error_within(
                        field_error(fields, "hasScannedForEncodings"@, PBXValueKind::Number),
                        id,
                    ),
                )
            } else if field_vec(fields, "knownRegions"@) is None {
                Err(error_within(field_error(fields, "knownRegions"@, PBXValueKind::Vec), id))
            } else if field_string(fields, "projectDirPath"@) is None {
                Err(error_within(field_error(fields, "projectDirPath"@, PBXValueKind::String), id))
            } else if field_string(fields, "mainGroup"@) is None {
                Err(error_within(field_error(fields, "mainGroup"@, PBXValueKind::String), id))
            } else if get_fs_reference(objects, field_string(fields, "mainGroup"@).unwrap(), trail) is None {
                Err(PBXErrorView::DanglingReference { id: field_string(fields, "mainGroup"@).unwrap() })
            } else if field_string(fields, "buildConfigurationList"@) is None {
                Err(
                    error_within(
                        field_error(fields, "buildConfigurationList"@, PBXValueKind::String),
                        id,
                    ),
                )
            } else if get_configuration_list(objects, field_string(fields, "buildConfigurationList"@).unwrap(), trail) is None {
                Err(PBXErrorView::DanglingReference { id: field_string(fields, "buildConfigurationList"@).unwrap() })
            } else if field_vec(fields, "targets"@) is None {
                Err(error_within(field_error(fields, "targets"@, PBXValueKind::Vec), id))
            } else {
                Ok(PBXProjectView {
                    id,
                    name: field_string(fields, "name"@),
                    compatibility_version: field_string(fields, "compatibilityVersion"@).unwrap(),
                    development_region: field_string(fields, "developmentRegion"@),
                    has_scanned_for_encodings: field_number(fields, "hasScannedForEncodings"@).unwrap(),
                    known_regions: strings_of(field_vec(fields, "knownRegions"@).unwrap()),
                    project_dir_path: field_string(fields, "projectDirPath"@).unwrap(),
                    project_roots: match field_texts(fields, "projectRoots"@) {
                        Some(roots) => roots,
                        None => match field_string(fields, "projectRoot"@) {
                            Some(root) => seq![root],
                            None => Seq::empty(),
                        },
                    },
                    main_group: get_fs_reference(objects, field_string(fields, "mainGroup"@).unwrap(), trail).unwrap(),
                    products_group: match field_string(fields, "productRefGroup"@) {
                        Some(key) => get_fs_reference(objects, key, trail),
                        None => None,
                    },
                    attributes: field_object(fields, "attributes"@),
                    target_attributes: match field_object(fields, "attributes"@) {
                        Some(attributes) => match field_object(attributes, "TargetAttributes"@) {
                            Some(by_target) => object_entries(by_target),
                            None => Seq::empty(),
                        },
                        None => Seq::empty(),
                    },
                    packages: get_swift_package_references(
                        objects,
                        field_ids(fields, "packageReferences"@),
                        trail,
                    ),
                    build_configuration_list: get_configuration_list(objects, field_string(fields, "buildConfigurationList"@).unwrap(), trail).unwrap(),
                    targets: get_targets(
                        objects,
                        strings_of(field_vec(fields, "targets"@).unwrap()),
                        trail,
                    ),
                })
            }
        },
        Ok(_) => Err(PBXErrorView::KindMismatch { id }),
    }
}

/// The project that the reference `id` leads to from the trail
/// `trail`: nothing when the reference is not followed, when it dangles, or
/// when the object cannot be built.
pub open spec fn get_project(
    objects: PBXHashMapView,
    id: Seq<char>,
    trail: Seq<Seq<char>>,
) -> Option<PBXProjectView>
    decreases objects.len() - trail.len(), 0int, 0int,
{
    if !can_follow(objects, id, trail) {
        None
    } else {
        match field_object(objects, id) {
            None => None,
            Some(fields) => match project_of(objects, id, fields, trail.push(id)) {
                Ok(x) => Some(x),
                Err(_) => None,
            },
        }
    }
}

/// Asked for by its type, a project is what the reference to it leads to
/// from the empty trail.
pub proof fn lemma_built_project(objects: PBXHashMapView, id: Seq<char>)
    ensures
        built::<PBXProject>(objects, id) == get_project(objects, id, Seq::empty()),
{
    lemma_field_index(objects, id);
    assert(Seq::<Seq<char>>::empty().push(id) =~= seq![id]);
}

/// Builds the project that `fields` describe.
pub fn project_from<'a>(
    objects: &'a PBXObjectCollection,
    id: &str,
    fields: &'a PBXHashMap,
    trail: Option<&Trail>,
) -> (r: Result<PBXProject<'a>, PBXError>)
    ensures
        match r {
            Ok(x) => project_of(objects@, id@, fields@, trail_view(trail)) == Ok::<
                PBXProjectView,
                PBXErrorView,
            >(project_view(x)),
            Err(e) => project_of(objects@, id@, fields@, trail_view(trail)) == Err::<
                PBXProjectView,
                PBXErrorView,
            >(e@),
        },
    decreases objects@.len() - trail_view(trail).len(), 2int, 0int,
{
    match within(kind_of_object(fields), id)? {
        PBXObjectKind::PBXProject => {},
        _ => return Err(PBXError::KindMismatch { id: String::from_str(id) }),
    }
    let name = fields.text("name");
    let compatibility_version = within(fields.try_get_string("compatibilityVersion"), id)?.clone();
    let development_region = fields.text("developmentRegion");
    let has_scanned_for_encodings = *within(fields.try_get_number("hasScannedForEncodings"), id)?;
    let known_regions = within(fields.try_get_vec("knownRegions"), id)?.to_vec_strings();
    let project_dir_path = within(fields.try_get_string("projectDirPath"), id)?.clone();
    let project_roots = match fields.texts("projectRoots") {
        Some(roots) => roots,
        None => {
            let mut roots: Vec<String> = Vec::new();
            assert(texts_view(roots@) =~= Seq::empty());
            match fields.text("projectRoot") {
                Some(root) => {
                    roots.push(root);
                    assert(texts_view(roots@) =~= seq![root@]);
                },
                None => {},
            }
            roots
        },
    };
    let main_group_key = within(fields.try_get_string("mainGroup"), id)?;
    let main_group = match fs_reference_at(objects, main_group_key.as_str(), trail) {
        Some(found) => found,
        None => return Err(PBXError::DanglingReference { id: main_group_key.clone() }),
    };
    let products_group = match fields.get_string("productRefGroup") {
        Some(key) => fs_reference_at(objects, key.as_str(), trail),
        None => None,
    };
    let attributes = fields.get_object("attributes");
    let by_target = match attributes {
        Some(attributes) => attributes.get_object("TargetAttributes"),
        None => None,
    };
    let target_attributes = match by_target {
        Some(by_target) => by_target.object_entries(),
        None => {
            let none: Vec<(String, &'a PBXHashMap)> = Vec::new();
            assert(named_objects_view(none@) =~= Seq::empty());
            none
        },
    };
    let packages = swift_package_references_at(objects, &fields.ids("packageReferences"), trail);
    let build_configuration_list_key = within(fields.try_get_string("buildConfigurationList"), id)?;
    let build_configuration_list = match configuration_list_at(objects, build_configuration_list_key.as_str(), trail) {
        Some(found) => found,
        None => return Err(
            PBXError::DanglingReference { id: build_configuration_list_key.clone() },
        ),
    };
    let targets = targets_at(
        objects,
        &within(fields.try_get_vec("targets"), id)?.to_vec_strings(),
        trail,
    );
    Ok(PBXProject {
        id: String::from_str(id),
        name,
        compatibility_version,
        development_region,
        has_scanned_for_encodings,
        known_regions,
        project_dir_path,
        project_roots,
        main_group,
        products_group,
        attributes,
        target_attributes,
        packages,
        build_configuration_list,
        targets,
    })
}

/// Follows the reference `id` to a project.
pub fn project_at<'a>(
    objects: &'a PBXObjectCollection,
    id: &str,
    trail: Option<&Trail>,
) -> (r: Option<PBXProject<'a>>)
    ensures
        opt_project_view(r) == get_project(objects@, id@, trail_view(trail)),
    decreases objects@.len() - trail_view(trail).len(), 0int, 0int,
{
    if trail_reaches(trail, objects.len()) || trail_has(trail, id) {
        return None;
    }
    match objects.object(id) {
        None => None,
        Some(fields) => {
            let step = Trail { id, rest: trail };
            match project_from(objects, id, fields, Some(&step)) {
                Ok(x) => Some(x),
                Err(_) => None,
            }
        },
    }
}

impl<'a> AsPBXObject<'a> for PBXProject<'a> {
    open spec fn described_by(
        objects: PBXHashMapView,
        id: Seq<char>,
        fields: PBXHashMapView,
    ) -> Result<PBXProjectView, PBXErrorView> {
        project_of(objects, id, fields, start_trail(objects, id))
    }

    /// The project that the fields `value` of the object `id` describe,
    /// with what it refers to taken from `objects`. Fails when the object is
    /// of another kind or lacks a field that it must have.
    fn as_pbx_object(
        id: String,
        value: &'a PBXHashMap,
        objects: &'a PBXObjectCollection,
    ) -> (r: Result<PBXProject<'a>, PBXError>) {
        if objects.0.contains_key(id.as_str()) {
            let step = Trail { id: id.as_str(), rest: None };
            proof {
                reveal_with_fuel(trail_view, 2);
                assert(trail_view(Some(&step)) =~= seq![id@]);
            }
            project_from(objects, id.as_str(), value, Some(&step))
        } else {
            project_from(objects, id.as_str(), value, None)
        }
    }
}

/// The attributes under the identifier `id` among `attributes`, from `from`
/// on: those of the first entry with this identifier.
pub open spec fn attributes_of_target(
    attributes: Seq<(Seq<char>, PBXHashMapView)>,
    id: Seq<char>,
    from: int,
) -> Option<PBXHashMapView>
    decreases attributes.len() - from,
{
    if from < 0 || from >= attributes.len() {
        None
    } else if attributes[from].0 == id {
        Some(attributes[from].1)
    } else {
        attributes_of_target(attributes, id, from + 1)
    }
}

impl<'a> PBXProject<'a> {
    /// The attributes of the target with the identifier `target_reference`,
    /// if the project holds attributes for it.
    pub fn get_attributes_for_target_reference(
        &self,
        target_reference: &str,
    ) -> (r: Option<&'a PBXHashMap>)
        ensures
            match r {
                Some(attributes) => attributes_of_target(
                    self@.target_attributes,
                    target_reference@,
                    0,
                ) == Some(attributes@),
                None => attributes_of_target(self@.target_attributes, target_reference@, 0) is None,
            },
    {
        let mut i: usize = 0;
        while i < self.target_attributes.len()
            invariant
                i <= self.target_attributes.len(),
                self@.target_attributes == named_objects_view(self.target_attributes@),
                attributes_of_target(self@.target_attributes, target_reference@, 0)
                    == attributes_of_target(self@.target_attributes, target_reference@, i as int),
            decreases self.target_attributes.len() - i,
        {
            if same_text(self.target_attributes[i].0.as_str(), target_reference) {
                return Some(self.target_attributes[i].1);
            }
            i += 1;
        }
        None
    }
}

/// A project object without a main group cannot be built; when the fields
/// that are asked for before the main group are there, the error says that
/// `mainGroup` is missing.
pub proof fn lemma_project_needs_main_group(
    objects: PBXHashMapView,
    id: Seq<char>,
    fields: PBXHashMapView,
    trail: Seq<Seq<char>>,
)
    requires
        object_kind(fields) == Ok::<PBXObjectKindView, PBXErrorView>(PBXObjectKindView::PBXProject),
        field_value(fields, "mainGroup"@) is None,
    ensures
        project_of(objects, id, fields, trail) is Err,
        field_string(fields, "compatibilityVersion"@) is Some && field_number(
            fields,
            "hasScannedForEncodings"@,
        ) is Some && field_vec(fields, "knownRegions"@) is Some && field_string(
            fields,
            "projectDirPath"@,
        ) is Some ==> project_of(objects, id, fields, trail) == Err::<PBXProjectView, PBXErrorView>(
            PBXErrorView::MissingField { key: "mainGroup"@, object: Some(id) },
        ),
{
}

} // verus!
