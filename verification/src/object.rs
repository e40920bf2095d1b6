//! Objects of any kind.
use vstd::prelude::*;
use crate::build_phase::{
    build_file_from, build_file_of, build_file_view, build_phase_from, build_phase_of,
    build_phase_view, PBXBuildFile, PBXBuildFileView, PBXBuildPhase, PBXBuildPhaseView,
};
use crate::build_rule::{
    build_rule_from, build_rule_of, build_rule_view, PBXBuildRule, PBXBuildRuleView,
};
use crate::collection::{
    AsPBXObject, kind_of_object, object_kind, PBXObjectCollection, start_trail, Trail, trail_view,
};
use crate::configuration::{
    build_configuration_from, build_configuration_of, build_configuration_view,
    configuration_list_from, configuration_list_of, configuration_list_view, XCBuildConfiguration,
    XCBuildConfigurationView, XCConfigurationList, XCConfigurationListView,
};
use crate::error::{error_within, PBXError, PBXErrorView, PBXValueKind, within};
use crate::fs_reference::{
    fs_reference_from, fs_reference_of, fs_reference_view, PBXFSReference, PBXFSReferenceView,
};
use crate::kind::{PBXObjectKind, PBXObjectKindView};
use crate::package::{
    swift_package_product_dependency_from, swift_package_product_dependency_of,
    swift_package_product_dependency_view, swift_package_reference_from, swift_package_reference_of,
    swift_package_reference_view, XCRemoteSwiftPackageReference, XCRemoteSwiftPackageReferenceView,
    XCSwiftPackageProductDependency, XCSwiftPackageProductDependencyView,
};
use crate::project::{PBXProject, PBXProjectView, project_from, project_of, project_view};
use crate::proxy::{
    container_item_proxy_from, container_item_proxy_of, container_item_proxy_view,
    PBXContainerItemProxy, PBXContainerItemProxyView,
};
use crate::target::{
    PBXTarget, PBXTargetDependency, PBXTargetDependencyView, PBXTargetView, target_dependency_from,
    target_dependency_of, target_dependency_view, target_from, target_of, target_view,
};
use crate::value::{PBXHashMap, PBXHashMapView, PBXValue, PBXValueView, value_kind};

verus! {

/// An object of any of the kinds that the library models.
#[derive(Debug)]
pub enum PBXObject<'a> {
    /// A target.
    PBXTarget(PBXTarget<'a>),
    /// A build phase.
    PBXBuildPhase(PBXBuildPhase<'a>),
    /// A file reference or a group.
    PBXFSReference(PBXFSReference),
    /// A build configuration.
    XCBuildConfiguration(XCBuildConfiguration<'a>),
    /// A build file.
    PBXBuildFile(PBXBuildFile<'a>),
    /// A build rule.
    PBXBuildRule(PBXBuildRule),
    /// A configuration list.
    XCConfigurationList(XCConfigurationList<'a>),
    /// A container item proxy.
    PBXContainerItemProxy(PBXContainerItemProxy),
    /// A project.
    PBXProject(PBXProject<'a>),
    /// A reference to a remote Swift package.
    XCRemoteSwiftPackageReference(XCRemoteSwiftPackageReference),
    /// A Swift package product dependency.
    XCSwiftPackageProductDependency(XCSwiftPackageProductDependency),
    /// A target dependency.
    PBXTargetDependency(PBXTargetDependency<'a>),
}

/// The mathematical value of a [`PBXObject`].
pub enum PBXObjectView {
    PBXTarget(PBXTargetView),
    PBXBuildPhase(PBXBuildPhaseView),
    PBXFSReference(PBXFSReferenceView),
    XCBuildConfiguration(XCBuildConfigurationView),
    PBXBuildFile(PBXBuildFileView),
    PBXBuildRule(PBXBuildRuleView),
    XCConfigurationList(XCConfigurationListView),
    PBXContainerItemProxy(PBXContainerItemProxyView),
    PBXProject(PBXProjectView),
    XCRemoteSwiftPackageReference(XCRemoteSwiftPackageReferenceView),
    XCSwiftPackageProductDependency(XCSwiftPackageProductDependencyView),
    PBXTargetDependency(PBXTargetDependencyView),
}

/// The mathematical value of `x`.
pub open spec fn object_view(x: PBXObject) -> PBXObjectView {
    match x {
        PBXObject::PBXTarget(inner) => PBXObjectView::PBXTarget(target_view(inner)),
        PBXObject::PBXBuildPhase(inner) => PBXObjectView::PBXBuildPhase(build_phase_view(inner)),
        PBXObject::PBXFSReference(inner) => PBXObjectView::PBXFSReference(fs_reference_view(inner)),
        PBXObject::XCBuildConfiguration(inner) => PBXObjectView::XCBuildConfiguration(
            build_configuration_view(inner),
        ),
        PBXObject::PBXBuildFile(inner) => PBXObjectView::PBXBuildFile(build_file_view(inner)),
        PBXObject::PBXBuildRule(inner) => PBXObjectView::PBXBuildRule(build_rule_view(inner)),
        PBXObject::XCConfigurationList(inner) => PBXObjectView::XCConfigurationList(
            configuration_list_view(inner),
        ),
        PBXObject::PBXContainerItemProxy(inner) => PBXObjectView::PBXContainerItemProxy(
            container_item_proxy_view(inner),
        ),
        PBXObject::PBXProject(inner) => PBXObjectView::PBXProject(project_view(inner)),
        PBXObject::XCRemoteSwiftPackageReference(inner) => PBXObjectView::XCRemoteSwiftPackageReference(swift_package_reference_view(inner)),
        PBXObject::XCSwiftPackageProductDependency(inner) => PBXObjectView::XCSwiftPackageProductDependency(swift_package_product_dependency_view(inner)),
        PBXObject::PBXTargetDependency(inner) => PBXObjectView::PBXTargetDependency(
            target_dependency_view(inner),
        ),
    }
}

impl<'a> View for PBXObject<'a> {
    type V = PBXObjectView;

    open spec fn view(&self) -> PBXObjectView {
        object_view(*self)
    }
}

/// The object that the fields `fields` of the object `id` describe, of the
/// kind that its `isa` field names: an error when the kind is unknown, or
/// when the object of that kind cannot be built.
pub open spec fn any_object_of(
    objects: PBXHashMapView,
    id: Seq<char>,
    fields: PBXHashMapView,
    trail: Seq<Seq<char>>,
) -> Result<PBXObjectView, PBXErrorView> {
    match object_kind(fields) {
        Err(e) => Err(error_within(e, id)),
        Ok(kind) => match kind {
            PBXObjectKindView::PBXTarget(_) => match target_of(objects, id, fields, trail) {
                Ok(x) => Ok(PBXObjectView::PBXTarget(x)),
                Err(e) => Err(e),
            },
            PBXObjectKindView::PBXBuildPhase(_) => match build_phase_of(objects, id, fields, trail) {
                Ok(x) => Ok(PBXObjectView::PBXBuildPhase(x)),
                Err(e) => Err(e),
            },
            PBXObjectKindView::PBXFSReference(_) => match fs_reference_of(objects, id, fields, trail) {
                Ok(x) => Ok(PBXObjectView::PBXFSReference(x)),
                Err(e) => Err(e),
            },
            PBXObjectKindView::XCBuildConfiguration => match build_configuration_of(objects, id, fields, trail) {
                Ok(x) => Ok(PBXObjectView::XCBuildConfiguration(x)),
                Err(e) => Err(e),
            },
            PBXObjectKindView::PBXBuildFile => match build_file_of(objects, id, fields, trail) {
                Ok(x) => Ok(PBXObjectView::PBXBuildFile(x)),
                Err(e) => Err(e),
            },
            PBXObjectKindView::PBXBuildRule => match build_rule_of(objects, id, fields, trail) {
                Ok(x) => Ok(PBXObjectView::PBXBuildRule(x)),
                Err(e) => Err(e),
            },
            PBXObjectKindView::XCConfigurationList => match configuration_list_of(objects, id, fields, trail) {
                Ok(x) => Ok(PBXObjectView::XCConfigurationList(x)),
                Err(e) => Err(e),
            },
            PBXObjectKindView::PBXContainerItemProxy => match container_item_proxy_of(objects, id, fields, trail) {
                Ok(x) => Ok(PBXObjectView::PBXContainerItemProxy(x)),
                Err(e) => Err(e),
            },
            PBXObjectKindView::PBXProject => match project_of(objects, id, fields, trail) {
                Ok(x) => Ok(PBXObjectView::PBXProject(x)),
                Err(e) => Err(e),
            },
            PBXObjectKindView::XCRemoteSwiftPackageReference => match swift_package_reference_of(objects, id, fields, trail) {
                Ok(x) => Ok(PBXObjectView::XCRemoteSwiftPackageReference(x)),
                Err(e) => Err(e),
            },
            PBXObjectKindView::XCSwiftPackageProductDependency => match swift_package_product_dependency_of(objects, id, fields, trail) {
                Ok(x) => Ok(PBXObjectView::XCSwiftPackageProductDependency(x)),
                Err(e) => Err(e),
            },
            PBXObjectKindView::PBXTargetDependency => match target_dependency_of(objects, id, fields, trail) {
                Ok(x) => Ok(PBXObjectView::PBXTargetDependency(x)),
                Err(e) => Err(e),
            },
            PBXObjectKindView::Unknown(_) => Err(PBXErrorView::KindMismatch { id }),
        },
    }
}

/// The object that the value `value` under the identifier `id` describes:
/// `value` must be an object.
pub open spec fn object_of_value(
    objects: PBXHashMapView,
    id: Seq<char>,
    value: PBXValueView,
) -> Result<PBXObjectView, PBXErrorView> {
    match value {
        PBXValueView::Object(fields) => any_object_of(
            objects,
            id,
            fields,
            start_trail(objects, id),
        ),
        _ => Err(
            PBXErrorView::TypeMismatch { expected: PBXValueKind::Object, actual: value_kind(value) },
        ),
    }
}

/// Builds the object that `fields` describe, of the kind that they name.
pub fn object_from<'a>(
    objects: &'a PBXObjectCollection,
    id: &str,
    fields: &'a PBXHashMap,
    trail: Option<&Trail>,
) -> (r: Result<PBXObject<'a>, PBXError>)
    ensures
        match r {
            Ok(x) => any_object_of(objects@, id@, fields@, trail_view(trail)) == Ok::<
                PBXObjectView,
                PBXErrorView,
            >(object_view(x)),
            Err(e) => any_object_of(objects@, id@, fields@, trail_view(trail)) == Err::<
                PBXObjectView,
                PBXErrorView,
            >(e@),
        },
{
    match within(kind_of_object(fields), id)? {
        PBXObjectKind::PBXTarget(_) => Ok(
            PBXObject::PBXTarget(target_from(objects, id, fields, trail)?),
        ),
        PBXObjectKind::PBXBuildPhase(_) => Ok(
            PBXObject::PBXBuildPhase(build_phase_from(objects, id, fields, trail)?),
        ),
        PBXObjectKind::PBXFSReference(_) => Ok(
            PBXObject::PBXFSReference(fs_reference_from(objects, id, fields, trail)?),
        ),
        PBXObjectKind::XCBuildConfiguration => Ok(
            PBXObject::XCBuildConfiguration(build_configuration_from(objects, id, fields, trail)?),
        ),
        PBXObjectKind::PBXBuildFile => Ok(
            PBXObject::PBXBuildFile(build_file_from(objects, id, fields, trail)?),
        ),
        PBXObjectKind::PBXBuildRule => Ok(
            PBXObject::PBXBuildRule(build_rule_from(objects, id, fields, trail)?),
        ),
        PBXObjectKind::XCConfigurationList => Ok(
            PBXObject::XCConfigurationList(configuration_list_from(objects, id, fields, trail)?),
        ),
        PBXObjectKind::PBXContainerItemProxy => Ok(
            PBXObject::PBXContainerItemProxy(
                container_item_proxy_from(objects, id, fields, trail)?,
            ),
        ),
        PBXObjectKind::PBXProject => Ok(
            PBXObject::PBXProject(project_from(objects, id, fields, trail)?),
        ),
        PBXObjectKind::XCRemoteSwiftPackageReference => Ok(
            PBXObject::XCRemoteSwiftPackageReference(
                swift_package_reference_from(objects, id, fields, trail)?,
            ),
        ),
        PBXObjectKind::XCSwiftPackageProductDependency => Ok(
            PBXObject::XCSwiftPackageProductDependency(
                swift_package_product_dependency_from(objects, id, fields, trail)?,
            ),
        ),
        PBXObjectKind::PBXTargetDependency => Ok(
            PBXObject::PBXTargetDependency(target_dependency_from(objects, id, fields, trail)?),
        ),
        PBXObjectKind::Unknown(_) => Err(PBXError::KindMismatch { id: String::from_str(id) }),
    }
}

impl<'a> PBXObject<'a> {
    /// The object that `fields`, the fields of the object `id`, describe.
    pub fn from_fields(
        id: &str,
        fields: &'a PBXHashMap,
        objects: &'a PBXObjectCollection,
    ) -> (r: Result<PBXObject<'a>, PBXError>)
        ensures
            match r {
                Ok(x) => any_object_of(objects@, id@, fields@, start_trail(objects@, id@)) == Ok::<
                    PBXObjectView,
                    PBXErrorView,
                >(object_view(x)),
                Err(e) => any_object_of(objects@, id@, fields@, start_trail(objects@, id@))
                    == Err::<PBXObjectView, PBXErrorView>(e@),
            },
    {
        if objects.0.contains_key(id) {
            let step = Trail { id, rest: None };
            proof {
                reveal_with_fuel(trail_view, 2);
                assert(trail_view(Some(&step)) =~= seq![id@]);
            }
            object_from(objects, id, fields, Some(&step))
        } else {
            object_from(objects, id, fields, None)
        }
    }

    /// The object that the value `value` under the identifier `id` describes,
    /// with what it refers to taken from `objects`. Fails when `value` is no
    /// object, when its kind is missing or unknown, or when the object of
    /// that kind cannot be built.
    pub fn new(
        id: String,
        value: &'a PBXValue,
        objects: &'a PBXObjectCollection,
    ) -> (r: Result<PBXObject<'a>, PBXError>)
        ensures
            match r {
                Ok(x) => object_of_value(objects@, id@, value@) == Ok::<PBXObjectView, PBXErrorView>(
                    object_view(x),
                ),
                Err(e) => object_of_value(objects@, id@, value@) == Err::<
                    PBXObjectView,
                    PBXErrorView,
                >(e@),
            },
    {
        match value {
            PBXValue::Object(fields) => PBXObject::from_fields(id.as_str(), fields, objects),
            other => Err(
                PBXError::TypeMismatch { expected: PBXValueKind::Object, actual: other.kind() },
            ),
        }
    }
}

impl<'a> AsPBXObject<'a> for PBXObject<'a> {
    open spec fn described_by(
        objects: PBXHashMapView,
        id: Seq<char>,
        fields: PBXHashMapView,
    ) -> Result<PBXObjectView, PBXErrorView> {
        any_object_of(objects, id, fields, start_trail(objects, id))
    }

    /// The object that the fields `value` of the object `id` describe, of the
    /// kind that they name, with what it refers to taken from `objects`.
    fn as_pbx_object(
        id: String,
        value: &'a PBXHashMap,
        objects: &'a PBXObjectCollection,
    ) -> (r: Result<PBXObject<'a>, PBXError>) {
        PBXObject::from_fields(id.as_str(), value, objects)
    }
}

} // verus!
