//! Targets and the dependencies between them.
use vstd::prelude::*;
use crate::build_phase::{
    build_phases_at, build_phases_view, get_build_phases, PBXBuildPhase, PBXBuildPhaseView,
};
use crate::build_rule::{
    build_rules_at, build_rules_view, get_build_rules, PBXBuildRule, PBXBuildRuleView,
};
use crate::collection::{
    AsPBXObject, can_follow, kind_of_object, object_kind, PBXObjectCollection, start_trail, Trail,
    trail_has, trail_reaches, trail_view,
};
use crate::configuration::{
    configuration_list_at, get_configuration_list, opt_configuration_list_view, XCConfigurationList,
    XCConfigurationListView,
};
use crate::error::{error_within, PBXError, PBXErrorView, PBXValueKind, within};
use crate::fs_reference::{
    fs_reference_at, get_fs_reference, opt_fs_reference_view, PBXFSReference, PBXFSReferenceView,
};
use crate::kind::{PBXObjectKind, PBXObjectKindView, PBXTargetKind};
use crate::lookup::built;
use crate::package::{
    get_swift_package_product_dependencies, get_swift_package_product_dependency,
    opt_swift_package_product_dependency_view, swift_package_product_dependencies_at,
    swift_package_product_dependencies_view, swift_package_product_dependency_at,
    XCSwiftPackageProductDependency, XCSwiftPackageProductDependencyView,
};
use crate::product_type::{PBXProductType, product_type_of};
use crate::proxy::{
    container_item_proxy_at, get_container_item_proxy, opt_container_item_proxy_view,
    PBXContainerItemProxy, PBXContainerItemProxyView,
};
use crate::text::{opt_text, texts_view};
use crate::value::{
    field_error, field_flag, field_ids, field_object, field_string, lemma_field_index, PBXHashMap,
    PBXHashMapView,
};

verus! {

/// A dependency of one target on another.
#[derive(Debug)]
pub struct PBXTargetDependency<'a> {
    /// The identifier of the object.
    pub id: String,
    /// The name.
    pub name: Option<String>,
    /// The platform filter.
    pub platform_filter: Option<String>,
    /// The target that is depended on.
    pub target: Option<PBXTarget<'a>>,
    /// The proxy of the target.
    pub target_proxy: Option<PBXContainerItemProxy>,
    /// The Swift package product.
    pub product: Option<XCSwiftPackageProductDependency>,
}

/// The mathematical value of a [`PBXTargetDependency`].
pub struct PBXTargetDependencyView {
    pub id: Seq<char>,
    pub name: Option<Seq<char>>,
    pub platform_filter: Option<Seq<char>>,
    pub target: Option<PBXTargetView>,
    pub target_proxy: Option<PBXContainerItemProxyView>,
    pub product: Option<XCSwiftPackageProductDependencyView>,
}

/// The mathematical value of `x`.
pub open spec fn target_dependency_view(x: PBXTargetDependency) -> PBXTargetDependencyView
    decreases x,
{
    PBXTargetDependencyView {
        id: x.id@,
        name: opt_text(x.name),
        platform_filter: opt_text(x.platform_filter),
        target: opt_target_view(x.target),
        target_proxy: opt_container_item_proxy_view(x.target_proxy),
        product: opt_swift_package_product_dependency_view(x.product),
    }
}

/// The mathematical values of a list.
pub open spec fn target_dependencies_view(
    s: Seq<PBXTargetDependency>,
) -> Seq<PBXTargetDependencyView>
    decreases s,
{
    Seq::new(
        s.len(),
        |i: int|
            if 0 <= i < s.len() {
                target_dependency_view(s[i])
            } else {
                arbitrary()
            },
    )
}

/// The mathematical value of what may be absent.
pub open spec fn opt_target_dependency_view(
    o: Option<PBXTargetDependency>,
) -> Option<PBXTargetDependencyView>
    decreases o,
{
    match o {
        Some(x) => Some(target_dependency_view(x)),
        None => None,
    }
}

impl<'a> View for PBXTargetDependency<'a> {
    type V = PBXTargetDependencyView;

    open spec fn view(&self) -> PBXTargetDependencyView {
        target_dependency_view(*self)
    }
}

/// The target dependency that the fields `fields` of the object `id` describe,
/// built while the objects on `trail` are being built, this one among them.
/// The kind of the object is tested first, then the fields that must be
/// there, in the order of the fields of the result: the first that fails
/// gives the error.
pub open spec fn target_dependency_of(
    objects: PBXHashMapView,
    id: Seq<char>,
    fields: PBXHashMapView,
    trail: Seq<Seq<char>>,
) -> Result<PBXTargetDependencyView, PBXErrorView>
    decreases objects.len() - trail.len(), 2int, 0int,
{
    match object_kind(fields) {
        Err(e) => Err(error_within(e, id)),
        Ok(PBXObjectKindView::PBXTargetDependency) => {
            Ok(PBXTargetDependencyView {
                id,
                name: field_string(fields, "name"@),
                platform_filter: field_string(fields, "platformFilter"@),
                target: match field_string(fields, "target"@) {
                    Some(key) => get_target(objects, key, trail),
                    None => None,
                },
                target_proxy: match field_string(fields, "targetProxy"@) {
                    Some(key) => get_container_item_proxy(objects, key, trail),
                    None => None,
                },
                product: match field_string(fields, "productRef"@) {
                    Some(key) => get_swift_package_product_dependency(objects, key, trail),
                    None => None,
                },
            })
        },
        Ok(_) => Err(PBXErrorView::KindMismatch { id }),
    }
}

/// The target dependency that the reference `id` leads to from the trail
/// `trail`: nothing when the reference is not followed, when it dangles, or
/// when the object cannot be built.
pub open spec fn get_target_dependency(
    objects: PBXHashMapView,
    id: Seq<char>,
    trail: Seq<Seq<char>>,
) -> Option<PBXTargetDependencyView>
    decreases objects.len() - trail.len(), 0int, 0int,
{
    if !can_follow(objects, id, trail) {
        None
    } else {
        match field_object(objects, id) {
            None => None,
            Some(fields) => match target_dependency_of(objects, id, fields, trail.push(id)) {
                Ok(x) => Some(x),
                Err(_) => None,
            },
        }
    }
}

/// What the references `ids` lead to, in order: a reference that leads to
/// nothing is left out.
pub open spec fn get_target_dependencies(
    objects: PBXHashMapView,
    ids: Seq<Seq<char>>,
    trail: Seq<Seq<char>>,
) -> Seq<PBXTargetDependencyView>
    decreases objects.len() - trail.len(), 1int, ids.len(),
{
    if ids.len() == 0 {
        Seq::empty()
    } else {
        match get_target_dependency(objects, ids.last(), trail) {
            Some(x) => get_target_dependencies(objects, ids.drop_last(), trail).push(x),
            None => get_target_dependencies(objects, ids.drop_last(), trail),
        }
    }
}

/// Asked for by its type, a target dependency is what the reference to it leads to
/// from the empty trail.
pub proof fn lemma_built_target_dependency(objects: PBXHashMapView, id: Seq<char>)
    ensures
        built::<PBXTargetDependency>(objects, id) == get_target_dependency(
            objects,
            id,
            Seq::empty(),
        ),
{
    lemma_field_index(objects, id);
    assert(Seq::<Seq<char>>::empty().push(id) =~= seq![id]);
}

/// What the references of two lists lead to, one list after the other, is what
/// the references of the two lists joined lead to.
pub proof fn lemma_get_target_dependencies_of_joined(
    objects: PBXHashMapView,
    a: Seq<Seq<char>>,
    b: Seq<Seq<char>>,
    trail: Seq<Seq<char>>,
)
    ensures
        get_target_dependencies(objects, a + b, trail) == get_target_dependencies(objects, a, trail) + get_target_dependencies(
            objects,
            b,
            trail,
        ),
    decreases b.len(),
{
    if b.len() == 0 {
        assert(a + b =~= a);
        assert(get_target_dependencies(objects, a, trail) + get_target_dependencies(objects, b, trail)
            =~= get_target_dependencies(objects, a, trail));
    } else {
        lemma_get_target_dependencies_of_joined(objects, a, b.drop_last(), trail);
        assert((a + b).drop_last() =~= a + b.drop_last());
        assert((a + b).last() == b.last());
        match get_target_dependency(objects, b.last(), trail) {
            Some(x) => {
                assert((get_target_dependencies(objects, a, trail) + get_target_dependencies(
                    objects,
                    b.drop_last(),
                    trail,
                )).push(x) =~= get_target_dependencies(objects, a, trail) + get_target_dependencies(
                    objects,
                    b.drop_last(),
                    trail,
                ).push(x));
            },
            None => {},
        }
    }
}

/// A dangling reference in a list of references is passed over: the list
/// leads to what it leads to without it.
pub proof fn lemma_get_target_dependencies_skips_dangling(
    objects: PBXHashMapView,
    before: Seq<Seq<char>>,
    dangling: Seq<char>,
    after: Seq<Seq<char>>,
    trail: Seq<Seq<char>>,
)
    requires
        field_object(objects, dangling) is None,
    ensures
        get_target_dependencies(objects, before + seq![dangling] + after, trail) == get_target_dependencies(
            objects,
            before + after,
            trail,
        ),
{
    lemma_get_target_dependencies_of_joined(objects, before + seq![dangling], after, trail);
    lemma_get_target_dependencies_of_joined(objects, before, seq![dangling], trail);
    lemma_get_target_dependencies_of_joined(objects, before, after, trail);
    assert(seq![dangling].drop_last() =~= Seq::<Seq<char>>::empty());
    assert(get_target_dependencies(objects, seq![dangling], trail) =~= Seq::empty()) by {
        reveal_with_fuel(get_target_dependencies, 2);
    }
    assert(get_target_dependencies(objects, before, trail) + Seq::empty() =~= get_target_dependencies(
        objects,
        before,
        trail,
    ));
}

/// Builds the target dependency that `fields` describe.
pub fn target_dependency_from<'a>(
    objects: &'a PBXObjectCollection,
    id: &str,
    fields: &'a PBXHashMap,
    trail: Option<&Trail>,
) -> (r: Result<PBXTargetDependency<'a>, PBXError>)
    ensures
        match r {
            Ok(x) => target_dependency_of(objects@, id@, fields@, trail_view(trail)) == Ok::<
                PBXTargetDependencyView,
                PBXErrorView,
            >(target_dependency_view(x)),
            Err(e) => target_dependency_of(objects@, id@, fields@, trail_view(trail)) == Err::<
                PBXTargetDependencyView,
                PBXErrorView,
            >(e@),
        },
    decreases objects@.len() - trail_view(trail).len(), 2int, 0int,
{
    match within(kind_of_object(fields), id)? {
        PBXObjectKind::PBXTargetDependency => {},
        _ => return Err(PBXError::KindMismatch { id: String::from_str(id) }),
    }
    let name = fields.text("name");
    let platform_filter = fields.text("platformFilter");
    let target = match fields.get_string("target") {
        Some(key) => target_at(objects, key.as_str(), trail),
        None => None,
    };
    let target_proxy = match fields.get_string("targetProxy") {
        Some(key) => container_item_proxy_at(objects, key.as_str(), trail),
        None => None,
    };
    let product = match fields.get_string("productRef") {
        Some(key) => swift_package_product_dependency_at(objects, key.as_str(), trail),
        None => None,
    };
    Ok(PBXTargetDependency {
        id: String::from_str(id),
        name,
        platform_filter,
        target,
        target_proxy,
        product,
    })
}

/// Follows the reference `id` to a target dependency.
pub fn target_dependency_at<'a>(
    objects: &'a PBXObjectCollection,
    id: &str,
    trail: Option<&Trail>,
) -> (r: Option<PBXTargetDependency<'a>>)
    ensures
        opt_target_dependency_view(r) == get_target_dependency(objects@, id@, trail_view(trail)),
    decreases objects@.len() - trail_view(trail).len(), 0int, 0int,
{
    if trail_reaches(trail, objects.len()) || trail_has(trail, id) {
        return None;
    }
    match objects.object(id) {
        None => None,
        Some(fields) => {
            let step = Trail { id, rest: trail };
            match target_dependency_from(objects, id, fields, Some(&step)) {
                Ok(x) => Some(x),
                Err(_) => None,
            }
        },
    }
}

/// Follows the references `ids`, and leaves out those that lead to nothing.
pub fn target_dependencies_at<'a>(
    objects: &'a PBXObjectCollection,
    ids: &Vec<String>,
    trail: Option<&Trail>,
) -> (r: Vec<PBXTargetDependency<'a>>)
    ensures
        target_dependencies_view(r@) == get_target_dependencies(
            objects@,
            texts_view(ids@),
            trail_view(trail),
        ),
    decreases objects@.len() - trail_view(trail).len(), 1int, ids@.len(),
{
    let ghost all = texts_view(ids@);
    let mut out: Vec<PBXTargetDependency<'a>> = Vec::new();
    let mut i: usize = 0;
    assert(target_dependencies_view(out@) =~= Seq::empty());
    assert(all.take(0) =~= Seq::empty());
    while i < ids.len()
        invariant
            i <= ids.len(),
            all == texts_view(ids@),
            target_dependencies_view(out@) == get_target_dependencies(
                objects@,
                all.take(i as int),
                trail_view(trail),
            ),
        decreases ids.len() - i,
    {
        assert(all.take(i + 1).drop_last() =~= all.take(i as int));
        assert(all.take(i + 1).last() == ids@[i as int]@);
        let ghost before = target_dependencies_view(out@);
        match target_dependency_at(objects, ids[i].as_str(), trail) {
            Some(x) => {
                out.push(x);
                assert(target_dependencies_view(out@) =~= before.push(target_dependency_view(x)));
            },
            None => {},
        }
        i += 1;
    }
    assert(all.take(ids.len() as int) =~= all);
    out
}

impl<'a> AsPBXObject<'a> for PBXTargetDependency<'a> {
    open spec fn described_by(
        objects: PBXHashMapView,
        id: Seq<char>,
        fields: PBXHashMapView,
    ) -> Result<PBXTargetDependencyView, PBXErrorView> {
        target_dependency_of(objects, id, fields, start_trail(objects, id))
    }

    /// The target dependency that the fields `value` of the object `id` describe,
    /// with what it refers to taken from `objects`. Fails when the object is
    /// of another kind or lacks a field that it must have.
    fn as_pbx_object(
        id: String,
        value: &'a PBXHashMap,
        objects: &'a PBXObjectCollection,
    ) -> (r: Result<PBXTargetDependency<'a>, PBXError>) {
        if objects.0.contains_key(id.as_str()) {
            let step = Trail { id: id.as_str(), rest: None };
            proof {
                reveal_with_fuel(trail_view, 2);
                assert(trail_view(Some(&step)) =~= seq![id@]);
            }
            target_dependency_from(objects, id.as_str(), value, Some(&step))
        } else {
            target_dependency_from(objects, id.as_str(), value, None)
        }
    }
}

/// A target of any kind: `PBXNativeTarget`, `PBXLegacyTarget` or `PBXAggregateTarget`.
#[derive(Debug)]
pub struct PBXTarget<'a> {
    /// The identifier of the object.
    pub id: String,
    /// The name.
    pub name: Option<String>,
    /// The name of the product.
    pub product_name: Option<String>,
    /// The type of the product.
    pub product_type: PBXProductType,
    /// The build configurations.
    pub build_configuration_list: Option<XCConfigurationList<'a>>,
    /// The build phases.
    pub build_phases: Vec<PBXBuildPhase<'a>>,
    /// The build rules.
    pub build_rules: Vec<PBXBuildRule>,
    /// The targets that this one depends on.
    pub target_dependencies: Vec<PBXTargetDependency<'a>>,
    /// The file that is the product.
    pub product: Option<PBXFSReference>,
    /// The Swift package products that the target depends on.
    pub package_product_dependencies: Vec<XCSwiftPackageProductDependency>,
    /// The kind of the target.
    pub kind: PBXTargetKind,
    /// Where the product is installed (native targets only).
    pub product_install_path: Option<String>,
    /// The path of the build tool (legacy targets only).
    pub build_tool_path: Option<String>,
    /// The arguments of the build tool (legacy targets only).
    pub build_arguments_string: Option<String>,
    /// Whether the build settings are handed to the build tool in its
    /// environment (legacy targets only).
    pub pass_build_settings_in_environment: Option<bool>,
    /// The directory in which the build tool runs (legacy targets only).
    pub build_working_directory: Option<String>,
}

/// The mathematical value of a [`PBXTarget`].
pub struct PBXTargetView {
    pub id: Seq<char>,
    pub name: Option<Seq<char>>,
    pub product_name: Option<Seq<char>>,
    pub product_type: PBXProductType,
    pub build_configuration_list: Option<XCConfigurationListView>,
    pub build_phases: Seq<PBXBuildPhaseView>,
    pub build_rules: Seq<PBXBuildRuleView>,
    pub target_dependencies: Seq<PBXTargetDependencyView>,
    pub product: Option<PBXFSReferenceView>,
    pub package_product_dependencies: Seq<XCSwiftPackageProductDependencyView>,
    pub kind: PBXTargetKind,
    pub product_install_path: Option<Seq<char>>,
    pub build_tool_path: Option<Seq<char>>,
    pub build_arguments_string: Option<Seq<char>>,
    pub pass_build_settings_in_environment: Option<bool>,
    pub build_working_directory: Option<Seq<char>>,
}

/// The mathematical value of `x`.
pub open spec fn target_view(x: PBXTarget) -> PBXTargetView
    decreases x,
{
    PBXTargetView {
        id: x.id@,
        name: opt_text(x.name),
        product_name: opt_text(x.product_name),
        product_type: x.product_type,
        build_configuration_list: opt_configuration_list_view(x.build_configuration_list),
        build_phases: build_phases_view(x.build_phases@),
        build_rules: build_rules_view(x.build_rules@),
        target_dependencies: target_dependencies_view(x.target_dependencies@),
        product: opt_fs_reference_view(x.product),
        package_product_dependencies: swift_package_product_dependencies_view(
            x.package_product_dependencies@,
        ),
        kind: x.kind,
        product_install_path: opt_text(x.product_install_path),
        build_tool_path: opt_text(x.build_tool_path),
        build_arguments_string: opt_text(x.build_arguments_string),
        pass_build_settings_in_environment: x.pass_build_settings_in_environment,
        build_working_directory: opt_text(x.build_working_directory),
    }
}

/// The mathematical values of a list.
pub open spec fn targets_view(s: Seq<PBXTarget>) -> Seq<PBXTargetView>
    decreases s,
{
    Seq::new(
        s.len(),
        |i: int|
            if 0 <= i < s.len() {
                target_view(s[i])
            } else {
                arbitrary()
            },
    )
}

/// The mathematical value of what may be absent.
pub open spec fn opt_target_view(o: Option<PBXTarget>) -> Option<PBXTargetView>
    decreases o,
{
    match o {
        Some(x) => Some(target_view(x)),
        None => None,
    }
}

impl<'a> View for PBXTarget<'a> {
    type V = PBXTargetView;

    open spec fn view(&self) -> PBXTargetView {
        target_view(*self)
    }
}

/// The target that the fields `fields` of the object `id` describe,
/// built while the objects on `trail` are being built, this one among them.
/// The kind of the object is tested first, then the fields that must be
/// there, in the order of the fields of the result: the first that fails
/// gives the error.
pub open spec fn target_of(
    objects: PBXHashMapView,
    id: Seq<char>,
    fields: PBXHashMapView,
    trail: Seq<Seq<char>>,
) -> Result<PBXTargetView, PBXErrorView>
    decreases objects.len() - trail.len(), 2int, 0int,
{
    match object_kind(fields) {
        Err(e) => Err(error_within(e, id)),
        Ok(PBXObjectKindView::PBXTarget(kind)) => {
            if field_string(fields, "productType"@) is None {
                Err(error_within(field_error(fields, "productType"@, PBXValueKind::String), id))
            } else {
                Ok(PBXTargetView {
                    id,
                    name: field_string(fields, "name"@),
                    product_name: field_string(fields, "productName"@),
                    product_type: product_type_of(field_string(fields, "productType"@).unwrap()),
                    build_configuration_list: match field_string(fields, "buildConfigurationList"@) {
                        Some(key) => get_configuration_list(objects, key, trail),
                        None => None,
                    },
                    build_phases: get_build_phases(
                        objects,
                        field_ids(fields, "buildPhases"@),
                        trail,
                    ),
                    build_rules: get_build_rules(objects, field_ids(fields, "buildRules"@), trail),
                    target_dependencies: get_target_dependencies(
                        objects,
                        field_ids(fields, "dependencies"@),
                        trail,
                    ),
                    product: match field_string(fields, "productReference"@) {
                        Some(key) => get_fs_reference(objects, key, trail),
                        None => None,
                    },
                    package_product_dependencies: get_swift_package_product_dependencies(
                        objects,
                        field_ids(fields, "packageProductDependencies"@),
                        trail,
                    ),
                    kind,
                    product_install_path: if kind == PBXTargetKind::Native {
                        field_string(fields, "productInstallPath"@)
                    } else {
                        None
                    },
                    build_tool_path: if kind == PBXTargetKind::Legacy {
                        field_string(fields, "buildToolPath"@)
                    } else {
                        None
                    },
                    build_arguments_string: if kind == PBXTargetKind::Legacy {
                        field_string(fields, "buildArgumentsString"@)
                    } else {
                        None
                    },
                    pass_build_settings_in_environment: if kind == PBXTargetKind::Legacy {
                        field_flag(fields, "passBuildSettingsInEnvironment"@)
                    } else {
                        None
                    },
                    build_working_directory: if kind == PBXTargetKind::Legacy {
                        field_string(fields, "buildWorkingDirectory"@)
                    } else {
                        None
                    },
                })
            }
        },
        Ok(_) => Err(PBXErrorView::KindMismatch { id }),
    }
}

/// The target that the reference `id` leads to from the trail
/// `trail`: nothing when the reference is not followed, when it dangles, or
/// when the object cannot be built.
pub open spec fn get_target(
    objects: PBXHashMapView,
    id: Seq<char>,
    trail: Seq<Seq<char>>,
) -> Option<PBXTargetView>
    decreases objects.len() - trail.len(), 0int, 0int,
{
    if !can_follow(objects, id, trail) {
        None
    } else {
        match field_object(objects, id) {
            None => None,
            Some(fields) => match target_of(objects, id, fields, trail.push(id)) {
                Ok(x) => Some(x),
                Err(_) => None,
            },
        }
    }
}

/// What the references `ids` lead to, in order: a reference that leads to
/// nothing is left out.
pub open spec fn get_targets(
    objects: PBXHashMapView,
    ids: Seq<Seq<char>>,
    trail: Seq<Seq<char>>,
) -> Seq<PBXTargetView>
    decreases objects.len() - trail.len(), 1int, ids.len(),
{
    if ids.len() == 0 {
        Seq::empty()
    } else {
        match get_target(objects, ids.last(), trail) {
            Some(x) => get_targets(objects, ids.drop_last(), trail).push(x),
            None => get_targets(objects, ids.drop_last(), trail),
        }
    }
}

/// Asked for by its type, a target is what the reference to it leads to
/// from the empty trail.
pub proof fn lemma_built_target(objects: PBXHashMapView, id: Seq<char>)
    ensures
        built::<PBXTarget>(objects, id) == get_target(objects, id, Seq::empty()),
{
    lemma_field_index(objects, id);
    assert(Seq::<Seq<char>>::empty().push(id) =~= seq![id]);
}

/// What the references of two lists lead to, one list after the other, is what
/// the references of the two lists joined lead to.
pub proof fn lemma_get_targets_of_joined(
    objects: PBXHashMapView,
    a: Seq<Seq<char>>,
    b: Seq<Seq<char>>,
    trail: Seq<Seq<char>>,
)
    ensures
        get_targets(objects, a + b, trail) == get_targets(objects, a, trail) + get_targets(
            objects,
            b,
            trail,
        ),
    decreases b.len(),
{
    if b.len() == 0 {
        assert(a + b =~= a);
        assert(get_targets(objects, a, trail) + get_targets(objects, b, trail)
            =~= get_targets(objects, a, trail));
    } else {
        lemma_get_targets_of_joined(objects, a, b.drop_last(), trail);
        assert((a + b).drop_last() =~= a + b.drop_last());
        assert((a + b).last() == b.last());
        match get_target(objects, b.last(), trail) {
            Some(x) => {
                assert((get_targets(objects, a, trail) + get_targets(
                    objects,
                    b.drop_last(),
                    trail,
                )).push(x) =~= get_targets(objects, a, trail) + get_targets(
                    objects,
                    b.drop_last(),
                    trail,
                ).push(x));
            },
            None => {},
        }
    }
}

/// A dangling reference in a list of references is passed over: the list
/// leads to what it leads to without it.
pub proof fn lemma_get_targets_skips_dangling(
    objects: PBXHashMapView,
    before: Seq<Seq<char>>,
    dangling: Seq<char>,
    after: Seq<Seq<char>>,
    trail: Seq<Seq<char>>,
)
    requires
        field_object(objects, dangling) is None,
    ensures
        get_targets(objects, before + seq![dangling] + after, trail) == get_targets(
            objects,
            before + after,
            trail,
        ),
{
    lemma_get_targets_of_joined(objects, before + seq![dangling], after, trail);
    lemma_get_targets_of_joined(objects, before, seq![dangling], trail);
    lemma_get_targets_of_joined(objects, before, after, trail);
    assert(seq![dangling].drop_last() =~= Seq::<Seq<char>>::empty());
    assert(get_targets(objects, seq![dangling], trail) =~= Seq::empty()) by {
        reveal_with_fuel(get_targets, 2);
    }
    assert(get_targets(objects, before, trail) + Seq::empty() =~= get_targets(
        objects,
        before,
        trail,
    ));
}

/// Builds the target that `fields` describe.
pub fn target_from<'a>(
    objects: &'a PBXObjectCollection,
    id: &str,
    fields: &'a PBXHashMap,
    trail: Option<&Trail>,
) -> (r: Result<PBXTarget<'a>, PBXError>)
    ensures
        match r {
            Ok(x) => target_of(objects@, id@, fields@, trail_view(trail)) == Ok::<
                PBXTargetView,
                PBXErrorView,
            >(target_view(x)),
            Err(e) => target_of(objects@, id@, fields@, trail_view(trail)) == Err::<
                PBXTargetView,
                PBXErrorView,
            >(e@),
        },
    decreases objects@.len() - trail_view(trail).len(), 2int, 0int,
{
    let kind = match within(kind_of_object(fields), id)? {
        PBXObjectKind::PBXTarget(k) => k,
        _ => return Err(PBXError::KindMismatch { id: String::from_str(id) }),
    };
    let name = fields.text("name");
    let product_name = fields.text("productName");
    let product_type = PBXProductType::from_name(
        within(fields.try_get_string("productType"), id)?.as_str(),
    );
    let build_configuration_list = match fields.get_string("buildConfigurationList") {
        Some(key) => configuration_list_at(objects, key.as_str(), trail),
        None => None,
    };
    let build_phases = build_phases_at(objects, &fields.ids("buildPhases"), trail);
    let build_rules = build_rules_at(objects, &fields.ids("buildRules"), trail);
    let target_dependencies = target_dependencies_at(objects, &fields.ids("dependencies"), trail);
    let product = match fields.get_string("productReference") {
        Some(key) => fs_reference_at(objects, key.as_str(), trail),
        None => None,
    };
    let package_product_dependencies = swift_package_product_dependencies_at(
        objects,
        &fields.ids("packageProductDependencies"),
        trail,
    );
    let product_install_path = if kind.is_native() {
        fields.text("productInstallPath")
    } else {
        None
    };
    let build_tool_path = if kind.is_legacy() {
        fields.text("buildToolPath")
    } else {
        None
    };
    let build_arguments_string = if kind.is_legacy() {
        fields.text("buildArgumentsString")
    } else {
        None
    };
    let pass_build_settings_in_environment = if kind.is_legacy() {
        fields.flag("passBuildSettingsInEnvironment")
    } else {
        None
    };
    let build_working_directory = if kind.is_legacy() {
        fields.text("buildWorkingDirectory")
    } else {
        None
    };
    Ok(PBXTarget {
        id: String::from_str(id),
        name,
        product_name,
        product_type,
        build_configuration_list,
        build_phases,
        build_rules,
        target_dependencies,
        product,
        package_product_dependencies,
        kind,
        product_install_path,
        build_tool_path,
        build_arguments_string,
        pass_build_settings_in_environment,
        build_working_directory,
    })
}

/// Follows the reference `id` to a target.
pub fn target_at<'a>(
    objects: &'a PBXObjectCollection,
    id: &str,
    trail: Option<&Trail>,
) -> (r: Option<PBXTarget<'a>>)
    ensures
        opt_target_view(r) == get_target(objects@, id@, trail_view(trail)),
    decreases objects@.len() - trail_view(trail).len(), 0int, 0int,
{
    if trail_reaches(trail, objects.len()) || trail_has(trail, id) {
        return None;
    }
    match objects.object(id) {
        None => None,
        Some(fields) => {
            let step = Trail { id, rest: trail };
            match target_from(objects, id, fields, Some(&step)) {
                Ok(x) => Some(x),
                Err(_) => None,
            }
        },
    }
}

/// Follows the references `ids`, and leaves out those that lead to nothing.
pub fn targets_at<'a>(
    objects: &'a PBXObjectCollection,
    ids: &Vec<String>,
    trail: Option<&Trail>,
) -> (r: Vec<PBXTarget<'a>>)
    ensures
        targets_view(r@) == get_targets(objects@, texts_view(ids@), trail_view(trail)),
    decreases objects@.len() - trail_view(trail).len(), 1int, ids@.len(),
{
    let ghost all = texts_view(ids@);
    let mut out: Vec<PBXTarget<'a>> = Vec::new();
    let mut i: usize = 0;
    assert(targets_view(out@) =~= Seq::empty());
    assert(all.take(0) =~= Seq::empty());
    while i < ids.len()
        invariant
            i <= ids.len(),
            all == texts_view(ids@),
            targets_view(out@) == get_targets(objects@, all.take(i as int), trail_view(trail)),
        decreases ids.len() - i,
    {
        assert(all.take(i + 1).drop_last() =~= all.take(i as int));
        assert(all.take(i + 1).last() == ids@[i as int]@);
        let ghost before = targets_view(out@);
        match target_at(objects, ids[i].as_str(), trail) {
            Some(x) => {
                out.push(x);
                assert(targets_view(out@) =~= before.push(target_view(x)));
            },
            None => {},
        }
        i += 1;
    }
    assert(all.take(ids.len() as int) =~= all);
    out
}

impl<'a> AsPBXObject<'a> for PBXTarget<'a> {
    open spec fn described_by(
        objects: PBXHashMapView,
        id: Seq<char>,
        fields: PBXHashMapView,
    ) -> Result<PBXTargetView, PBXErrorView> {
        target_of(objects, id, fields, start_trail(objects, id))
    }

    /// The target that the fields `value` of the object `id` describe,
    /// with what it refers to taken from `objects`. Fails when the object is
    /// of another kind or lacks a field that it must have.
    fn as_pbx_object(
        id: String,
        value: &'a PBXHashMap,
        objects: &'a PBXObjectCollection,
    ) -> (r: Result<PBXTarget<'a>, PBXError>) {
        if objects.0.contains_key(id.as_str()) {
            let step = Trail { id: id.as_str(), rest: None };
            proof {
                reveal_with_fuel(trail_view, 2);
                assert(trail_view(Some(&step)) =~= seq![id@]);
            }
            target_from(objects, id.as_str(), value, Some(&step))
        } else {
            target_from(objects, id.as_str(), value, None)
        }
    }
}

} // verus!
