//! The queries of the collection: one object by its identifier, all objects of
//! a kind, and objects found by a name.
use vstd::prelude::*;
use crate::build_phase::{
    build_file_at, build_file_view, build_files_view, build_phase_at, build_phase_view,
    build_phases_view, get_build_file, get_build_phase, opt_build_file_view, opt_build_phase_view,
    PBXBuildFile, PBXBuildFileView, PBXBuildPhase, PBXBuildPhaseView,
};
use crate::build_rule::{
    build_rule_at, build_rule_view, build_rules_view, get_build_rule, opt_build_rule_view,
    PBXBuildRule, PBXBuildRuleView,
};
use crate::collection::{collection_well_formed, kind_of_value, PBXObjectCollection, value_kind_of};
use crate::configuration::{
    build_configuration_at, build_configuration_view, build_configurations_view,
    configuration_list_at, get_build_configuration, get_configuration_list,
    opt_build_configuration_view, opt_configuration_list_view, XCBuildConfiguration,
    XCBuildConfigurationView, XCConfigurationList,
};
use crate::fs_reference::{
    fs_reference_at, fs_reference_view, fs_references_view, get_fs_reference, opt_fs_reference_view,
    PBXFSReference, PBXFSReferenceView,
};
use crate::kind::{PBXFSReferenceKind, PBXObjectKindView};
use crate::package::{
    get_swift_package_product_dependency, get_swift_package_reference,
    opt_swift_package_product_dependency_view, opt_swift_package_reference_view,
    swift_package_product_dependencies_view, swift_package_product_dependency_at,
    swift_package_product_dependency_view, swift_package_reference_at, swift_package_reference_view,
    swift_package_references_view, XCRemoteSwiftPackageReference, XCRemoteSwiftPackageReferenceView,
    XCSwiftPackageProductDependency, XCSwiftPackageProductDependencyView,
};
use crate::project::{
    get_project, opt_project_view, PBXProject, PBXProjectView, project_at, project_view,
    projects_view,
};
use crate::proxy::{
    container_item_proxy_at, get_container_item_proxy, opt_container_item_proxy_view,
    PBXContainerItemProxy,
};
use crate::target::{
    get_target, get_target_dependency, opt_target_dependency_view, opt_target_view, PBXTarget,
    PBXTargetDependency, PBXTargetView, target_at, target_dependency_at, target_view, targets_view,
};
use crate::text::same_text;
use crate::value::{
    field_string, field_value, has_field, lemma_field_index, lemma_keys_unique_in_fields,
    PBXHashMapView, PBXValue, PBXValueView, unique_keys,
};

verus! {

/// Whether `kind` is one of the three kinds of group.
pub open spec fn is_group_kind(kind: PBXObjectKindView) -> bool {
    match kind {
        PBXObjectKindView::PBXFSReference(k) => k.spec_is_group(),
        _ => false,
    }
}

/// The targets among the first `n` entries of `objects`, in order: each
/// entry that is an object of that kind and can be built, built from its
/// identifier.
pub open spec fn all_targets_upto(objects: PBXHashMapView, n: int) -> Seq<PBXTargetView>
    decreases n,
{
    if n <= 0 || n > objects.len() {
        Seq::empty()
    } else {
        let before = all_targets_upto(objects, n - 1);
        match value_kind_of(objects[n - 1].1) {
            Some(PBXObjectKindView::PBXTarget(_)) => match get_target(objects, objects[n - 1].0, Seq::empty()) {
                Some(x) => before.push(x),
                None => before,
            },
            _ => before,
        }
    }
}

/// All the targets of `objects`, in the order of the collection.
pub open spec fn all_targets(objects: PBXHashMapView) -> Seq<PBXTargetView> {
    all_targets_upto(objects, objects.len() as int)
}

/// The projects among the first `n` entries of `objects`, in order: each
/// entry that is an object of that kind and can be built, built from its
/// identifier.
pub open spec fn all_projects_upto(objects: PBXHashMapView, n: int) -> Seq<PBXProjectView>
    decreases n,
{
    if n <= 0 || n > objects.len() {
        Seq::empty()
    } else {
        let before = all_projects_upto(objects, n - 1);
        match value_kind_of(objects[n - 1].1) {
            Some(PBXObjectKindView::PBXProject) => match get_project(objects, objects[n - 1].0, Seq::empty()) {
                Some(x) => before.push(x),
                None => before,
            },
            _ => before,
        }
    }
}

/// All the projects of `objects`, in the order of the collection.
pub open spec fn all_projects(objects: PBXHashMapView) -> Seq<PBXProjectView> {
    all_projects_upto(objects, objects.len() as int)
}

/// The build phases among the first `n` entries of `objects`, in order: each
/// entry that is an object of that kind and can be built, built from its
/// identifier.
pub open spec fn all_build_phases_upto(objects: PBXHashMapView, n: int) -> Seq<PBXBuildPhaseView>
    decreases n,
{
    if n <= 0 || n > objects.len() {
        Seq::empty()
    } else {
        let before = all_build_phases_upto(objects, n - 1);
        match value_kind_of(objects[n - 1].1) {
            Some(PBXObjectKindView::PBXBuildPhase(_)) => match get_build_phase(objects, objects[n - 1].0, Seq::empty()) {
                Some(x) => before.push(x),
                None => before,
            },
            _ => before,
        }
    }
}

/// All the build phases of `objects`, in the order of the collection.
pub open spec fn all_build_phases(objects: PBXHashMapView) -> Seq<PBXBuildPhaseView> {
    all_build_phases_upto(objects, objects.len() as int)
}

/// The build configurations among the first `n` entries of `objects`, in order: each
/// entry that is an object of that kind and can be built, built from its
/// identifier.
pub open spec fn all_build_configurations_upto(
    objects: PBXHashMapView,
    n: int,
) -> Seq<XCBuildConfigurationView>
    decreases n,
{
    if n <= 0 || n > objects.len() {
        Seq::empty()
    } else {
        let before = all_build_configurations_upto(objects, n - 1);
        match value_kind_of(objects[n - 1].1) {
            Some(PBXObjectKindView::XCBuildConfiguration) => match get_build_configuration(objects, objects[n - 1].0, Seq::empty()) {
                Some(x) => before.push(x),
                None => before,
            },
            _ => before,
        }
    }
}

/// All the build configurations of `objects`, in the order of the collection.
pub open spec fn all_build_configurations(
    objects: PBXHashMapView,
) -> Seq<XCBuildConfigurationView> {
    all_build_configurations_upto(objects, objects.len() as int)
}

/// The build files among the first `n` entries of `objects`, in order: each
/// entry that is an object of that kind and can be built, built from its
/// identifier.
pub open spec fn all_build_files_upto(objects: PBXHashMapView, n: int) -> Seq<PBXBuildFileView>
    decreases n,
{
    if n <= 0 || n > objects.len() {
        Seq::empty()
    } else {
        let before = all_build_files_upto(objects, n - 1);
        match value_kind_of(objects[n - 1].1) {
            Some(PBXObjectKindView::PBXBuildFile) => match get_build_file(objects, objects[n - 1].0, Seq::empty()) {
                Some(x) => before.push(x),
                None => before,
            },
            _ => before,
        }
    }
}

/// All the build files of `objects`, in the order of the collection.
pub open spec fn all_build_files(objects: PBXHashMapView) -> Seq<PBXBuildFileView> {
    all_build_files_upto(objects, objects.len() as int)
}

/// The build rules among the first `n` entries of `objects`, in order: each
/// entry that is an object of that kind and can be built, built from its
/// identifier.
pub open spec fn all_build_rules_upto(objects: PBXHashMapView, n: int) -> Seq<PBXBuildRuleView>
    decreases n,
{
    if n <= 0 || n > objects.len() {
        Seq::empty()
    } else {
        let before = all_build_rules_upto(objects, n - 1);
        match value_kind_of(objects[n - 1].1) {
            Some(PBXObjectKindView::PBXBuildRule) => match get_build_rule(objects, objects[n - 1].0, Seq::empty()) {
                Some(x) => before.push(x),
                None => before,
            },
            _ => before,
        }
    }
}

/// All the build rules of `objects`, in the order of the collection.
pub open spec fn all_build_rules(objects: PBXHashMapView) -> Seq<PBXBuildRuleView> {
    all_build_rules_upto(objects, objects.len() as int)
}

/// The file references among the first `n` entries of `objects`, in order: each
/// entry that is an object of that kind and can be built, built from its
/// identifier.
pub open spec fn all_files_upto(objects: PBXHashMapView, n: int) -> Seq<PBXFSReferenceView>
    decreases n,
{
    if n <= 0 || n > objects.len() {
        Seq::empty()
    } else {
        let before = all_files_upto(objects, n - 1);
        match value_kind_of(objects[n - 1].1) {
            Some(PBXObjectKindView::PBXFSReference(PBXFSReferenceKind::File)) => match get_fs_reference(objects, objects[n - 1].0, Seq::empty()) {
                Some(x) => before.push(x),
                None => before,
            },
            _ => before,
        }
    }
}

/// All the file references of `objects`, in the order of the collection.
pub open spec fn all_files(objects: PBXHashMapView) -> Seq<PBXFSReferenceView> {
    all_files_upto(objects, objects.len() as int)
}

/// The groups of any kind among the first `n` entries of `objects`, in order: each
/// entry that is an object of that kind and can be built, built from its
/// identifier.
pub open spec fn all_groups_upto(objects: PBXHashMapView, n: int) -> Seq<PBXFSReferenceView>
    decreases n,
{
    if n <= 0 || n > objects.len() {
        Seq::empty()
    } else {
        let before = all_groups_upto(objects, n - 1);
        match value_kind_of(objects[n - 1].1) {
            Some(kind) => if is_group_kind(kind) {
                match get_fs_reference(objects, objects[n - 1].0, Seq::empty()) {
                    Some(x) => before.push(x),
                    None => before,
                }
            } else {
                before
            },
            None => before,
        }
    }
}

/// All the groups of any kind of `objects`, in the order of the collection.
pub open spec fn all_groups(objects: PBXHashMapView) -> Seq<PBXFSReferenceView> {
    all_groups_upto(objects, objects.len() as int)
}

/// The Swift package product dependencies among the first `n` entries of `objects`, in order: each
/// entry that is an object of that kind and can be built, built from its
/// identifier.
pub open spec fn all_swift_package_product_dependencies_upto(
    objects: PBXHashMapView,
    n: int,
) -> Seq<XCSwiftPackageProductDependencyView>
    decreases n,
{
    if n <= 0 || n > objects.len() {
        Seq::empty()
    } else {
        let before = all_swift_package_product_dependencies_upto(objects, n - 1);
        match value_kind_of(objects[n - 1].1) {
            Some(PBXObjectKindView::XCSwiftPackageProductDependency) => match get_swift_package_product_dependency(objects, objects[n - 1].0, Seq::empty()) {
                Some(x) => before.push(x),
                None => before,
            },
            _ => before,
        }
    }
}

/// All the Swift package product dependencies of `objects`, in the order of the collection.
pub open spec fn all_swift_package_product_dependencies(
    objects: PBXHashMapView,
) -> Seq<XCSwiftPackageProductDependencyView> {
    all_swift_package_product_dependencies_upto(objects, objects.len() as int)
}

/// The references to remote Swift packages among the first `n` entries of `objects`, in order: each
/// entry that is an object of that kind and can be built, built from its
/// identifier.
pub open spec fn all_swift_package_references_upto(
    objects: PBXHashMapView,
    n: int,
) -> Seq<XCRemoteSwiftPackageReferenceView>
    decreases n,
{
    if n <= 0 || n > objects.len() {
        Seq::empty()
    } else {
        let before = all_swift_package_references_upto(objects, n - 1);
        match value_kind_of(objects[n - 1].1) {
            Some(PBXObjectKindView::XCRemoteSwiftPackageReference) => match get_swift_package_reference(objects, objects[n - 1].0, Seq::empty()) {
                Some(x) => before.push(x),
                None => before,
            },
            _ => before,
        }
    }
}

/// All the references to remote Swift packages of `objects`, in the order of the collection.
pub open spec fn all_swift_package_references(
    objects: PBXHashMapView,
) -> Seq<XCRemoteSwiftPackageReferenceView> {
    all_swift_package_references_upto(objects, objects.len() as int)
}

/// The first of `targets`, from `from` on, with the name `name`.
pub open spec fn target_named(
    targets: Seq<PBXTargetView>,
    name: Seq<char>,
    from: int,
) -> Option<PBXTargetView>
    decreases targets.len() - from,
{
    if from < 0 || from >= targets.len() {
        None
    } else if targets[from].name == Some(name) {
        Some(targets[from])
    } else {
        target_named(targets, name, from + 1)
    }
}

/// Whether a group goes by `name`: by its name if it has one, else by its
/// path.
pub open spec fn group_goes_by(group: PBXFSReferenceView, name: Seq<char>) -> bool {
    match group.name {
        Some(n) => n == name,
        None => group.path == Some(name),
    }
}

/// The first of `groups`, from `from` on, that goes by `name`.
pub open spec fn group_named(
    groups: Seq<PBXFSReferenceView>,
    name: Seq<char>,
    from: int,
) -> Option<PBXFSReferenceView>
    decreases groups.len() - from,
{
    if from < 0 || from >= groups.len() {
        None
    } else if group_goes_by(groups[from], name) {
        Some(groups[from])
    } else {
        group_named(groups, name, from + 1)
    }
}

/// Whether `value` is a build configuration that is based on the file `id`.
pub open spec fn is_based_on(value: PBXValueView, id: Seq<char>) -> bool {
    match value {
        PBXValueView::Object(fields) => value_kind_of(value) == Some(
            PBXObjectKindView::XCBuildConfiguration,
        ) && field_string(fields, "baseConfigurationReference"@) == Some(id),
        _ => false,
    }
}

/// The build configurations among the first `n` entries of `objects` that are
/// based on the file `id`, in order.
pub open spec fn build_configurations_based_on_upto(
    objects: PBXHashMapView,
    id: Seq<char>,
    n: int,
) -> Seq<XCBuildConfigurationView>
    decreases n,
{
    if n <= 0 || n > objects.len() {
        Seq::empty()
    } else {
        let before = build_configurations_based_on_upto(objects, id, n - 1);
        if is_based_on(objects[n - 1].1, id) {
            match get_build_configuration(objects, objects[n - 1].0, Seq::empty()) {
                Some(x) => before.push(x),
                None => before,
            }
        } else {
            before
        }
    }
}

/// All the build configurations of `objects` that are based on the file `id`.
pub open spec fn build_configurations_based_on(
    objects: PBXHashMapView,
    id: Seq<char>,
) -> Seq<XCBuildConfigurationView> {
    build_configurations_based_on_upto(objects, id, objects.len() as int)
}

/// The file reference that `id` leads to: nothing when it leads to a group.
pub open spec fn get_file_reference(
    objects: PBXHashMapView,
    id: Seq<char>,
) -> Option<PBXFSReferenceView> {
    match get_fs_reference(objects, id, Seq::empty()) {
        Some(x) => if x.kind == PBXFSReferenceKind::File {
            Some(x)
        } else {
            None
        },
        None => None,
    }
}

/// The group that `id` leads to: nothing when it leads to a file.
pub open spec fn get_group_reference(
    objects: PBXHashMapView,
    id: Seq<char>,
) -> Option<PBXFSReferenceView> {
    match get_fs_reference(objects, id, Seq::empty()) {
        Some(x) => if x.kind.spec_is_group() {
            Some(x)
        } else {
            None
        },
        None => None,
    }
}

/// Where no identifier comes twice, an entry is found under its own
/// identifier.
pub proof fn lemma_entry_is_found(objects: PBXHashMapView, i: int)
    requires
        unique_keys(objects),
        0 <= i < objects.len(),
    ensures
        has_field(objects, objects[i].0),
        field_value(objects, objects[i].0) == Some(objects[i].1),
{
    lemma_field_index(objects, objects[i].0);
}

/// Where no identifier comes twice, each of the first `n` file references
/// is a file.
pub proof fn lemma_all_files_upto_are_files(objects: PBXHashMapView, n: int)
    requires
        unique_keys(objects),
    ensures
        forall|j: int|
            0 <= j < all_files_upto(objects, n).len() ==> (#[trigger] all_files_upto(
                objects,
                n,
            )[j]).kind == PBXFSReferenceKind::File,
    decreases n,
{
    if 0 < n <= objects.len() {
        lemma_all_files_upto_are_files(objects, n - 1);
        lemma_entry_is_found(objects, n - 1);
    }
}

/// Where no identifier comes twice, each of the first `n` groups is a
/// group.
pub proof fn lemma_all_groups_upto_are_groups(objects: PBXHashMapView, n: int)
    requires
        unique_keys(objects),
    ensures
        forall|j: int|
            0 <= j < all_groups_upto(objects, n).len() ==> (#[trigger] all_groups_upto(
                objects,
                n,
            )[j]).kind.spec_is_group(),
    decreases n,
{
    if 0 < n <= objects.len() {
        lemma_all_groups_upto_are_groups(objects, n - 1);
        lemma_entry_is_found(objects, n - 1);
    }
}

/// In a well-formed collection, `files` holds files only and `groups` holds
/// groups only.
pub proof fn lemma_files_are_files_and_groups_are_groups(objects: PBXHashMapView)
    requires
        collection_well_formed(objects),
    ensures
        forall|j: int|
            0 <= j < all_files(objects).len() ==> (#[trigger] all_files(objects)[j]).kind
                == PBXFSReferenceKind::File,
        forall|j: int|
            0 <= j < all_groups(objects).len() ==> (#[trigger] all_groups(
                objects,
            )[j]).kind.spec_is_group(),
{
    lemma_keys_unique_in_fields(objects);
    lemma_all_files_upto_are_files(objects, objects.len() as int);
    lemma_all_groups_upto_are_groups(objects, objects.len() as int);
}

impl PBXObjectCollection {
    /// The target with the identifier `key`: nothing when there is no such
    /// object, when it is of another kind, or when it cannot be built.
    pub fn get_target<'a>(&'a self, key: &str) -> (r: Option<PBXTarget<'a>>)
        ensures
            opt_target_view(r) == get_target(self@, key@, Seq::empty()),
    {
        target_at(self, key, None)
    }

    /// The build phase with the identifier `key`: nothing when there is no such
    /// object, when it is of another kind, or when it cannot be built.
    pub fn get_build_phase<'a>(&'a self, key: &str) -> (r: Option<PBXBuildPhase<'a>>)
        ensures
            opt_build_phase_view(r) == get_build_phase(self@, key@, Seq::empty()),
    {
        build_phase_at(self, key, None)
    }

    /// The build file with the identifier `key`: nothing when there is no such
    /// object, when it is of another kind, or when it cannot be built.
    pub fn get_build_file<'a>(&'a self, key: &str) -> (r: Option<PBXBuildFile<'a>>)
        ensures
            opt_build_file_view(r) == get_build_file(self@, key@, Seq::empty()),
    {
        build_file_at(self, key, None)
    }

    /// The build rule with the identifier `key`: nothing when there is no such
    /// object, when it is of another kind, or when it cannot be built.
    pub fn get_build_rule(&self, key: &str) -> (r: Option<PBXBuildRule>)
        ensures
            opt_build_rule_view(r) == get_build_rule(self@, key@, Seq::empty()),
    {
        build_rule_at(self, key, None)
    }

    /// The project with the identifier `key`: nothing when there is no such
    /// object, when it is of another kind, or when it cannot be built.
    pub fn get_project<'a>(&'a self, key: &str) -> (r: Option<PBXProject<'a>>)
        ensures
            opt_project_view(r) == get_project(self@, key@, Seq::empty()),
    {
        project_at(self, key, None)
    }

    /// The file reference or group with the identifier `key`: nothing when there is no such
    /// object, when it is of another kind, or when it cannot be built.
    pub fn get_fs_object(&self, key: &str) -> (r: Option<PBXFSReference>)
        ensures
            opt_fs_reference_view(r) == get_fs_reference(self@, key@, Seq::empty()),
    {
        fs_reference_at(self, key, None)
    }

    /// The Swift package product dependency with the identifier `key`: nothing
    /// when there is no such
    /// object, when it is of another kind, or when it cannot be built.
    pub fn get_swift_package_product_dependency(
        &self,
        key: &str,
    ) -> (r: Option<XCSwiftPackageProductDependency>)
        ensures
            opt_swift_package_product_dependency_view(r) == get_swift_package_product_dependency(
                self@,
                key@,
                Seq::empty(),
            ),
    {
        swift_package_product_dependency_at(self, key, None)
    }

    /// The reference to a remote Swift package with the identifier `key`:
    /// nothing when there is no such
    /// object, when it is of another kind, or when it cannot be built.
    pub fn get_swift_package_reference(
        &self,
        key: &str,
    ) -> (r: Option<XCRemoteSwiftPackageReference>)
        ensures
            opt_swift_package_reference_view(r) == get_swift_package_reference(
                self@,
                key@,
                Seq::empty(),
            ),
    {
        swift_package_reference_at(self, key, None)
    }

    /// The build configuration with the identifier `key`: nothing when there is no such
    /// object, when it is of another kind, or when it cannot be built.
    pub fn get_build_configuration<'a>(&'a self, key: &str) -> (r: Option<XCBuildConfiguration<'a>>)
        ensures
            opt_build_configuration_view(r) == get_build_configuration(self@, key@, Seq::empty()),
    {
        build_configuration_at(self, key, None)
    }

    /// The configuration list with the identifier `key`: nothing when there is no such
    /// object, when it is of another kind, or when it cannot be built.
    pub fn get_configuration_list<'a>(&'a self, key: &str) -> (r: Option<XCConfigurationList<'a>>)
        ensures
            opt_configuration_list_view(r) == get_configuration_list(self@, key@, Seq::empty()),
    {
        configuration_list_at(self, key, None)
    }

    /// The target dependency with the identifier `key`: nothing when there is no such
    /// object, when it is of another kind, or when it cannot be built.
    pub fn get_target_dependency<'a>(&'a self, key: &str) -> (r: Option<PBXTargetDependency<'a>>)
        ensures
            opt_target_dependency_view(r) == get_target_dependency(self@, key@, Seq::empty()),
    {
        target_dependency_at(self, key, None)
    }

    /// The container item proxy with the identifier `key`: nothing when there is no such
    /// object, when it is of another kind, or when it cannot be built.
    pub fn get_container_item_proxy(&self, key: &str) -> (r: Option<PBXContainerItemProxy>)
        ensures
            opt_container_item_proxy_view(r) == get_container_item_proxy(self@, key@, Seq::empty()),
    {
        container_item_proxy_at(self, key, None)
    }

    /// The file reference with the identifier `key`: nothing when `key` leads
    /// to no file reference.
    pub fn get_file(&self, key: &str) -> (r: Option<PBXFSReference>)
        ensures
            opt_fs_reference_view(r) == get_file_reference(self@, key@),
    {
        match fs_reference_at(self, key, None) {
            Some(x) => if x.is_file() {
                Some(x)
            } else {
                None
            },
            None => None,
        }
    }

    /// The group with the identifier `key`: nothing when `key` leads to no
    /// group.
    pub fn get_group(&self, key: &str) -> (r: Option<PBXFSReference>)
        ensures
            opt_fs_reference_view(r) == get_group_reference(self@, key@),
    {
        match fs_reference_at(self, key, None) {
            Some(x) => if x.is_group() {
                Some(x)
            } else {
                None
            },
            None => None,
        }
    }

    /// All the targets, in the order of the collection; an object that
    /// cannot be built is left out.
    pub fn targets<'a>(&'a self) -> (r: Vec<PBXTarget<'a>>)
        ensures
            targets_view(r@) == all_targets(self@),
    {
        let mut out: Vec<PBXTarget<'a>> = Vec::new();
        let mut i: usize = 0;
        assert(targets_view(out@) =~= Seq::empty());
        while i < self.0.entries.len()
            invariant
                i <= self.0.entries.len(),
                targets_view(out@) == all_targets_upto(self@, i as int),
            decreases self.0.entries.len() - i,
        {
            let ghost before = targets_view(out@);
            assert(self@[i as int] == (self.0.entries@[i as int].0@, self.0.entries@[i as int].1@));
            let wanted = match kind_of_value(&self.0.entries[i].1) {
                Some(kind) => kind.is_pbx_target(),
                None => false,
            };
            if wanted {
                match target_at(self, self.0.entries[i].0.as_str(), None) {
                    Some(x) => {
                        out.push(x);
                        assert(targets_view(out@) =~= before.push(target_view(x)));
                    },
                    None => {},
                }
            }
            i += 1;
        }
        out
    }

    /// All the projects, in the order of the collection; an object that
    /// cannot be built is left out.
    pub fn projects<'a>(&'a self) -> (r: Vec<PBXProject<'a>>)
        ensures
            projects_view(r@) == all_projects(self@),
    {
        let mut out: Vec<PBXProject<'a>> = Vec::new();
        let mut i: usize = 0;
        assert(projects_view(out@) =~= Seq::empty());
        while i < self.0.entries.len()
            invariant
                i <= self.0.entries.len(),
                projects_view(out@) == all_projects_upto(self@, i as int),
            decreases self.0.entries.len() - i,
        {
            let ghost before = projects_view(out@);
            assert(self@[i as int] == (self.0.entries@[i as int].0@, self.0.entries@[i as int].1@));
            let wanted = match kind_of_value(&self.0.entries[i].1) {
                Some(kind) => kind.is_pbx_project(),
                None => false,
            };
            if wanted {
                match project_at(self, self.0.entries[i].0.as_str(), None) {
                    Some(x) => {
                        out.push(x);
                        assert(projects_view(out@) =~= before.push(project_view(x)));
                    },
                    None => {},
                }
            }
            i += 1;
        }
        out
    }

    /// All the build phases, in the order of the collection; an object that
    /// cannot be built is left out.
    pub fn build_phases<'a>(&'a self) -> (r: Vec<PBXBuildPhase<'a>>)
        ensures
            build_phases_view(r@) == all_build_phases(self@),
    {
        let mut out: Vec<PBXBuildPhase<'a>> = Vec::new();
        let mut i: usize = 0;
        assert(build_phases_view(out@) =~= Seq::empty());
        while i < self.0.entries.len()
            invariant
                i <= self.0.entries.len(),
                build_phases_view(out@) == all_build_phases_upto(self@, i as int),
            decreases self.0.entries.len() - i,
        {
            let ghost before = build_phases_view(out@);
            assert(self@[i as int] == (self.0.entries@[i as int].0@, self.0.entries@[i as int].1@));
            let wanted = match kind_of_value(&self.0.entries[i].1) {
                Some(kind) => kind.is_pbx_build_phase(),
                None => false,
            };
            if wanted {
                match build_phase_at(self, self.0.entries[i].0.as_str(), None) {
                    Some(x) => {
                        out.push(x);
                        assert(build_phases_view(out@) =~= before.push(build_phase_view(x)));
                    },
                    None => {},
                }
            }
            i += 1;
        }
        out
    }

    /// All the build configurations, in the order of the collection; an object that
    /// cannot be built is left out.
    pub fn build_configurations<'a>(&'a self) -> (r: Vec<XCBuildConfiguration<'a>>)
        ensures
            build_configurations_view(r@) == all_build_configurations(self@),
    {
        let mut out: Vec<XCBuildConfiguration<'a>> = Vec::new();
        let mut i: usize = 0;
        assert(build_configurations_view(out@) =~= Seq::empty());
        while i < self.0.entries.len()
            invariant
                i <= self.0.entries.len(),
                build_configurations_view(out@) == all_build_configurations_upto(self@, i as int),
            decreases self.0.entries.len() - i,
        {
            let ghost before = build_configurations_view(out@);
            assert(self@[i as int] == (self.0.entries@[i as int].0@, self.0.entries@[i as int].1@));
            let wanted = match kind_of_value(&self.0.entries[i].1) {
                Some(kind) => kind.is_xc_build_configuration(),
                None => false,
            };
            if wanted {
                match build_configuration_at(self, self.0.entries[i].0.as_str(), None) {
                    Some(x) => {
                        out.push(x);
                        assert(build_configurations_view(out@) =~= before.push(build_configuration_view(x)));
                    },
                    None => {},
                }
            }
            i += 1;
        }
        out
    }

    /// All the build files, in the order of the collection; an object that
    /// cannot be built is left out.
    pub fn build_files<'a>(&'a self) -> (r: Vec<PBXBuildFile<'a>>)
        ensures
            build_files_view(r@) == all_build_files(self@),
    {
        let mut out: Vec<PBXBuildFile<'a>> = Vec::new();
        let mut i: usize = 0;
        assert(build_files_view(out@) =~= Seq::empty());
        while i < self.0.entries.len()
            invariant
                i <= self.0.entries.len(),
                build_files_view(out@) == all_build_files_upto(self@, i as int),
            decreases self.0.entries.len() - i,
        {
            let ghost before = build_files_view(out@);
            assert(self@[i as int] == (self.0.entries@[i as int].0@, self.0.entries@[i as int].1@));
            let wanted = match kind_of_value(&self.0.entries[i].1) {
                Some(kind) => kind.is_pbx_build_file(),
                None => false,
            };
            if wanted {
                match build_file_at(self, self.0.entries[i].0.as_str(), None) {
                    Some(x) => {
                        out.push(x);
                        assert(build_files_view(out@) =~= before.push(build_file_view(x)));
                    },
                    None => {},
                }
            }
            i += 1;
        }
        out
    }

    /// All the build rules, in the order of the collection; an object that
    /// cannot be built is left out.
    pub fn build_rules(&self) -> (r: Vec<PBXBuildRule>)
        ensures
            build_rules_view(r@) == all_build_rules(self@),
    {
        let mut out: Vec<PBXBuildRule> = Vec::new();
        let mut i: usize = 0;
        assert(build_rules_view(out@) =~= Seq::empty());
        while i < self.0.entries.len()
            invariant
                i <= self.0.entries.len(),
                build_rules_view(out@) == all_build_rules_upto(self@, i as int),
            decreases self.0.entries.len() - i,
        {
            let ghost before = build_rules_view(out@);
            assert(self@[i as int] == (self.0.entries@[i as int].0@, self.0.entries@[i as int].1@));
            let wanted = match kind_of_value(&self.0.entries[i].1) {
                Some(kind) => kind.is_pbx_build_rule(),
                None => false,
            };
            if wanted {
                match build_rule_at(self, self.0.entries[i].0.as_str(), None) {
                    Some(x) => {
                        out.push(x);
                        assert(build_rules_view(out@) =~= before.push(build_rule_view(x)));
                    },
                    None => {},
                }
            }
            i += 1;
        }
        out
    }

    /// All the file references, in the order of the collection; an object that
    /// cannot be built is left out.
    pub fn files(&self) -> (r: Vec<PBXFSReference>)
        ensures
            fs_references_view(r@) == all_files(self@),
    {
        let mut out: Vec<PBXFSReference> = Vec::new();
        let mut i: usize = 0;
        assert(fs_references_view(out@) =~= Seq::empty());
        while i < self.0.entries.len()
            invariant
                i <= self.0.entries.len(),
                fs_references_view(out@) == all_files_upto(self@, i as int),
            decreases self.0.entries.len() - i,
        {
            let ghost before = fs_references_view(out@);
            assert(self@[i as int] == (self.0.entries@[i as int].0@, self.0.entries@[i as int].1@));
            let wanted = match kind_of_value(&self.0.entries[i].1) {
                Some(kind) => kind.is_file_reference(),
                None => false,
            };
            if wanted {
                match fs_reference_at(self, self.0.entries[i].0.as_str(), None) {
                    Some(x) => {
                        out.push(x);
                        assert(fs_references_view(out@) =~= before.push(fs_reference_view(x)));
                    },
                    None => {},
                }
            }
            i += 1;
        }
        out
    }

    /// All the groups of any kind, in the order of the collection; an object that
    /// cannot be built is left out.
    pub fn groups(&self) -> (r: Vec<PBXFSReference>)
        ensures
            fs_references_view(r@) == all_groups(self@),
    {
        let mut out: Vec<PBXFSReference> = Vec::new();
        let mut i: usize = 0;
        assert(fs_references_view(out@) =~= Seq::empty());
        while i < self.0.entries.len()
            invariant
                i <= self.0.entries.len(),
                fs_references_view(out@) == all_groups_upto(self@, i as int),
            decreases self.0.entries.len() - i,
        {
            let ghost before = fs_references_view(out@);
            assert(self@[i as int] == (self.0.entries@[i as int].0@, self.0.entries@[i as int].1@));
            let wanted = match kind_of_value(&self.0.entries[i].1) {
                Some(kind) => kind.is_group() || kind.is_variant_group() || kind.is_version_group(),
                None => false,
            };
            if wanted {
                match fs_reference_at(self, self.0.entries[i].0.as_str(), None) {
                    Some(x) => {
                        out.push(x);
                        assert(fs_references_view(out@) =~= before.push(fs_reference_view(x)));
                    },
                    None => {},
                }
            }
            i += 1;
        }
        out
    }

    /// All the Swift package product dependencies, in the order of the collection; an object that
    /// cannot be built is left out.
    pub fn swift_package_product_dependencies(&self) -> (r: Vec<XCSwiftPackageProductDependency>)
        ensures
            swift_package_product_dependencies_view(r@) == all_swift_package_product_dependencies(
                self@,
            ),
    {
        let mut out: Vec<XCSwiftPackageProductDependency> = Vec::new();
        let mut i: usize = 0;
        assert(swift_package_product_dependencies_view(out@) =~= Seq::empty());
        while i < self.0.entries.len()
            invariant
                i <= self.0.entries.len(),
                swift_package_product_dependencies_view(out@)
                    == all_swift_package_product_dependencies_upto(self@, i as int),
            decreases self.0.entries.len() - i,
        {
            let ghost before = swift_package_product_dependencies_view(out@);
            assert(self@[i as int] == (self.0.entries@[i as int].0@, self.0.entries@[i as int].1@));
            let wanted = match kind_of_value(&self.0.entries[i].1) {
                Some(kind) => kind.is_xc_swift_package_product_dependency(),
                None => false,
            };
            if wanted {
                match swift_package_product_dependency_at(self, self.0.entries[i].0.as_str(), None) {
                    Some(x) => {
                        out.push(x);
                        assert(swift_package_product_dependencies_view(out@) =~= before.push(swift_package_product_dependency_view(x)));
                    },
                    None => {},
                }
            }
            i += 1;
        }
        out
    }

    /// All the references to remote Swift packages, in the order of the collection; an object that
    /// cannot be built is left out.
    pub fn swift_package_references(&self) -> (r: Vec<XCRemoteSwiftPackageReference>)
        ensures
            swift_package_references_view(r@) == all_swift_package_references(self@),
    {
        let mut out: Vec<XCRemoteSwiftPackageReference> = Vec::new();
        let mut i: usize = 0;
        assert(swift_package_references_view(out@) =~= Seq::empty());
        while i < self.0.entries.len()
            invariant
                i <= self.0.entries.len(),
                swift_package_references_view(out@) == all_swift_package_references_upto(
                    self@,
                    i as int,
                ),
            decreases self.0.entries.len() - i,
        {
            let ghost before = swift_package_references_view(out@);
            assert(self@[i as int] == (self.0.entries@[i as int].0@, self.0.entries@[i as int].1@));
            let wanted = match kind_of_value(&self.0.entries[i].1) {
                Some(kind) => kind.is_xc_remote_swift_package_reference(),
                None => false,
            };
            if wanted {
                match swift_package_reference_at(self, self.0.entries[i].0.as_str(), None) {
                    Some(x) => {
                        out.push(x);
                        assert(swift_package_references_view(out@) =~= before.push(swift_package_reference_view(x)));
                    },
                    None => {},
                }
            }
            i += 1;
        }
        out
    }

    /// The build configurations that are based on the file with the
    /// identifier `id`, in the order of the collection.
    pub fn get_build_configurations_by_base_id<'a>(
        &'a self,
        id: &str,
    ) -> (r: Vec<XCBuildConfiguration<'a>>)
        ensures
            build_configurations_view(r@) == build_configurations_based_on(self@, id@),
    {
        let mut out: Vec<XCBuildConfiguration<'a>> = Vec::new();
        let mut i: usize = 0;
        assert(build_configurations_view(out@) =~= Seq::empty());
        while i < self.0.entries.len()
            invariant
                i <= self.0.entries.len(),
                build_configurations_view(out@) == build_configurations_based_on_upto(
                    self@,
                    id@,
                    i as int,
                ),
            decreases self.0.entries.len() - i,
        {
            let ghost before = build_configurations_view(out@);
            assert(self@[i as int] == (self.0.entries@[i as int].0@, self.0.entries@[i as int].1@));
            let of_kind = match kind_of_value(&self.0.entries[i].1) {
                Some(kind) => kind.is_xc_build_configuration(),
                None => false,
            };
            let based = match &self.0.entries[i].1 {
                PBXValue::Object(fields) => match fields.get_string("baseConfigurationReference") {
                    Some(base) => same_text(base.as_str(), id),
                    None => false,
                },
                _ => false,
            };
            let wanted = of_kind && based;
            if wanted {
                match build_configuration_at(self, self.0.entries[i].0.as_str(), None) {
                    Some(x) => {
                        out.push(x);
                        assert(build_configurations_view(out@) =~= before.push(
                            build_configuration_view(x),
                        ));
                    },
                    None => {},
                }
            }
            i += 1;
        }
        out
    }

    /// The first target, in the order of the collection, with the name
    /// `name`.
    pub fn get_target_by_name<'a>(&'a self, name: &str) -> (r: Option<PBXTarget<'a>>)
        ensures
            opt_target_view(r) == target_named(all_targets(self@), name@, 0),
    {
        let targets = self.targets();
        let ghost all = targets@;
        for target in it: targets
            invariant
                it.seq() == all,
                targets_view(all) == all_targets(self@),
                target_named(all_targets(self@), name@, 0) == target_named(
                    all_targets(self@),
                    name@,
                    it.index(),
                ),
        {
            assert(targets_view(all)[it.index()] == target_view(target));
            let found = match &target.name {
                Some(n) => same_text(n.as_str(), name),
                None => false,
            };
            if found {
                return Some(target);
            }
        }
        None
    }

    /// The first group, in the order of the collection, that goes by
    /// `name_or_path`: by its name if it has one, else by its path.
    pub fn get_group_by_name_or_path(&self, name_or_path: &str) -> (r: Option<PBXFSReference>)
        ensures
            opt_fs_reference_view(r) == group_named(all_groups(self@), name_or_path@, 0),
    {
        let groups = self.groups();
        let ghost all = groups@;
        for group in it: groups
            invariant
                it.seq() == all,
                fs_references_view(all) == all_groups(self@),
                group_named(all_groups(self@), name_or_path@, 0) == group_named(
                    all_groups(self@),
                    name_or_path@,
                    it.index(),
                ),
        {
            assert(fs_references_view(all)[it.index()] == fs_reference_view(group));
            let found = match &group.name {
                Some(n) => same_text(n.as_str(), name_or_path),
                None => match &group.path {
                    Some(p) => same_text(p.as_str(), name_or_path),
                    None => false,
                },
            };
            if found {
                return Some(group);
            }
        }
        None
    }
}

} // verus!
