//! Build configurations and their lists.
use vstd::prelude::*;
use crate::collection::{
    AsPBXObject, can_follow, kind_of_object, object_kind, PBXObjectCollection, start_trail, Trail,
    trail_has, trail_reaches, trail_view,
};
use crate::error::{error_within, PBXError, PBXErrorView, PBXValueKind, within};
use crate::fs_reference::{
    fs_reference_at, get_fs_reference, opt_fs_reference_view, PBXFSReference, PBXFSReferenceView,
};
use crate::kind::{PBXObjectKind, PBXObjectKindView};
use crate::lookup::built;
use crate::text::{opt_text, texts_view};
use crate::value::{
    field_error, field_ids, field_number, field_object, field_string, lemma_field_index, PBXHashMap,
    PBXHashMapView,
};

verus! {

/// A build configuration: a named set of build settings.
#[derive(Debug)]
pub struct XCBuildConfiguration<'a> {
    /// The identifier of the object.
    pub id: String,
    /// The name of the configuration.
    pub name: String,
    /// The build settings.
    pub build_settings: &'a PBXHashMap,
    /// The file that the configuration is based on.
    pub base_configuration: Option<PBXFSReference>,
}

/// The mathematical value of an [`XCBuildConfiguration`].
pub struct XCBuildConfigurationView {
    pub id: Seq<char>,
    pub name: Seq<char>,
    pub build_settings: PBXHashMapView,
    pub base_configuration: Option<PBXFSReferenceView>,
}

/// The mathematical value of `x`.
pub open spec fn build_configuration_view(x: XCBuildConfiguration) -> XCBuildConfigurationView {
    XCBuildConfigurationView {
        id: x.id@,
        name: x.name@,
        build_settings: x.build_settings@,
        base_configuration: opt_fs_reference_view(x.base_configuration),
    }
}

/// The mathematical values of a list.
pub open spec fn build_configurations_view(
    s: Seq<XCBuildConfiguration>,
) -> Seq<XCBuildConfigurationView> {
    Seq::new(s.len(), |i: int| build_configuration_view(s[i]))
}

/// The mathematical value of what may be absent.
pub open spec fn opt_build_configuration_view(
    o: Option<XCBuildConfiguration>,
) -> Option<XCBuildConfigurationView> {
    match o {
        Some(x) => Some(build_configuration_view(x)),
        None => None,
    }
}

impl<'a> View for XCBuildConfiguration<'a> {
    type V = XCBuildConfigurationView;

    open spec fn view(&self) -> XCBuildConfigurationView {
        build_configuration_view(*self)
    }
}

/// The build configuration that the fields `fields` of the object `id` describe,
/// built while the objects on `trail` are being built, this one among them.
/// The kind of the object is tested first, then the fields that must be
/// there, in the order of the fields of the result: the first that fails
/// gives the error.
pub open spec fn build_configuration_of(
    objects: PBXHashMapView,
    id: Seq<char>,
    fields: PBXHashMapView,
    trail: Seq<Seq<char>>,
) -> Result<XCBuildConfigurationView, PBXErrorView>
    decreases objects.len() - trail.len(), 2int, 0int,
{
    match object_kind(fields) {
        Err(e) => Err(error_within(e, id)),
        Ok(PBXObjectKindView::XCBuildConfiguration) => {
            if field_string(fields, "name"@) is None {
                Err(error_within(field_error(fields, "name"@, PBXValueKind::String), id))
            } else if field_object(fields, "buildSettings"@) is None {
                Err(error_within(field_error(fields, "buildSettings"@, PBXValueKind::Object), id))
            } else {
                Ok(XCBuildConfigurationView {
                    id,
                    name: field_string(fields, "name"@).unwrap(),
                    build_settings: field_object(fields, "buildSettings"@).unwrap(),
                    base_configuration: match field_string(fields, "baseConfigurationReference"@) {
                        Some(key) => get_fs_reference(objects, key, trail),
                        None => None,
                    },
                })
            }
        },
        Ok(_) => Err(PBXErrorView::KindMismatch { id }),
    }
}

/// The build configuration that the reference `id` leads to from the trail
/// `trail`: nothing when the reference is not followed, when it dangles, or
/// when the object cannot be built.
pub open spec fn get_build_configuration(
    objects: PBXHashMapView,
    id: Seq<char>,
    trail: Seq<Seq<char>>,
) -> Option<XCBuildConfigurationView>
    decreases objects.len() - trail.len(), 0int, 0int,
{
    if !can_follow(objects, id, trail) {
        None
    } else {
        match field_object(objects, id) {
            None => None,
            Some(fields) => match build_configuration_of(objects, id, fields, trail.push(id)) {
                Ok(x) => Some(x),
                Err(_) => None,
            },
        }
    }
}

/// What the references `ids` lead to, in order: a reference that leads to
/// nothing is left out.
pub open spec fn get_build_configurations(
    objects: PBXHashMapView,
    ids: Seq<Seq<char>>,
    trail: Seq<Seq<char>>,
) -> Seq<XCBuildConfigurationView>
    decreases objects.len() - trail.len(), 1int, ids.len(),
{
    if ids.len() == 0 {
        Seq::empty()
    } else {
        match get_build_configuration(objects, ids.last(), trail) {
            Some(x) => get_build_configurations(objects, ids.drop_last(), trail).push(x),
            None => get_build_configurations(objects, ids.drop_last(), trail),
        }
    }
}

/// Asked for by its type, a build configuration is what the reference to it leads to
/// from the empty trail.
pub proof fn lemma_built_build_configuration(objects: PBXHashMapView, id: Seq<char>)
    ensures
        built::<XCBuildConfiguration>(objects, id) == get_build_configuration(
            objects,
            id,
            Seq::empty(),
        ),
{
    lemma_field_index(objects, id);
    assert(Seq::<Seq<char>>::empty().push(id) =~= seq![id]);
}

/// What the references of two lists lead to, one list after the other, is what
/// the references of the two lists joined lead to.
pub proof fn lemma_get_build_configurations_of_joined(
    objects: PBXHashMapView,
    a: Seq<Seq<char>>,
    b: Seq<Seq<char>>,
    trail: Seq<Seq<char>>,
)
    ensures
        get_build_configurations(objects, a + b, trail) == get_build_configurations(objects, a, trail) + get_build_configurations(
            objects,
            b,
            trail,
        ),
    decreases b.len(),
{
    if b.len() == 0 {
        assert(a + b =~= a);
        assert(get_build_configurations(objects, a, trail) + get_build_configurations(objects, b, trail)
            =~= get_build_configurations(objects, a, trail));
    } else {
        lemma_get_build_configurations_of_joined(objects, a, b.drop_last(), trail);
        assert((a + b).drop_last() =~= a + b.drop_last());
        assert((a + b).last() == b.last());
        match get_build_configuration(objects, b.last(), trail) {
            Some(x) => {
                assert((get_build_configurations(objects, a, trail) + get_build_configurations(
                    objects,
                    b.drop_last(),
                    trail,
                )).push(x) =~= get_build_configurations(objects, a, trail) + get_build_configurations(
                    objects,
                    b.drop_last(),
                    trail,
                ).push(x));
            },
            None => {},
        }
    }
}

/// A dangling reference in a list of references is passed over: the list
/// leads to what it leads to without it.
pub proof fn lemma_get_build_configurations_skips_dangling(
    objects: PBXHashMapView,
    before: Seq<Seq<char>>,
    dangling: Seq<char>,
    after: Seq<Seq<char>>,
    trail: Seq<Seq<char>>,
)
    requires
        field_object(objects, dangling) is None,
    ensures
        get_build_configurations(objects, before + seq![dangling] + after, trail) == get_build_configurations(
            objects,
            before + after,
            trail,
        ),
{
    lemma_get_build_configurations_of_joined(objects, before + seq![dangling], after, trail);
    lemma_get_build_configurations_of_joined(objects, before, seq![dangling], trail);
    lemma_get_build_configurations_of_joined(objects, before, after, trail);
    assert(seq![dangling].drop_last() =~= Seq::<Seq<char>>::empty());
    assert(get_build_configurations(objects, seq![dangling], trail) =~= Seq::empty()) by {
        reveal_with_fuel(get_build_configurations, 2);
    }
    assert(get_build_configurations(objects, before, trail) + Seq::empty() =~= get_build_configurations(
        objects,
        before,
        trail,
    ));
}

/// Builds the build configuration that `fields` describe.
pub fn build_configuration_from<'a>(
    objects: &'a PBXObjectCollection,
    id: &str,
    fields: &'a PBXHashMap,
    trail: Option<&Trail>,
) -> (r: Result<XCBuildConfiguration<'a>, PBXError>)
    ensures
        match r {
            Ok(x) => build_configuration_of(objects@, id@, fields@, trail_view(trail)) == Ok::<
                XCBuildConfigurationView,
                PBXErrorView,
            >(build_configuration_view(x)),
            Err(e) => build_configuration_of(objects@, id@, fields@, trail_view(trail)) == Err::<
                XCBuildConfigurationView,
                PBXErrorView,
            >(e@),
        },
    decreases objects@.len() - trail_view(trail).len(), 2int, 0int,
{
    match within(kind_of_object(fields), id)? {
        PBXObjectKind::XCBuildConfiguration => {},
        _ => return Err(PBXError::KindMismatch { id: String::from_str(id) }),
    }
    let name = within(fields.try_get_string("name"), id)?.clone();
    let build_settings = within(fields.try_get_object("buildSettings"), id)?;
    let base_configuration = match fields.get_string("baseConfigurationReference") {
        Some(key) => fs_reference_at(objects, key.as_str(), trail),
        None => None,
    };
    Ok(XCBuildConfiguration {
        id: String::from_str(id),
        name,
        build_settings,
        base_configuration,
    })
}

/// Follows the reference `id` to a build configuration.
pub fn build_configuration_at<'a>(
    objects: &'a PBXObjectCollection,
    id: &str,
    trail: Option<&Trail>,
) -> (r: Option<XCBuildConfiguration<'a>>)
    ensures
        opt_build_configuration_view(r) == get_build_configuration(
            objects@,
            id@,
            trail_view(trail),
        ),
    decreases objects@.len() - trail_view(trail).len(), 0int, 0int,
{
    if trail_reaches(trail, objects.len()) || trail_has(trail, id) {
        return None;
    }
    match objects.object(id) {
        None => None,
        Some(fields) => {
            let step = Trail { id, rest: trail };
            match build_configuration_from(objects, id, fields, Some(&step)) {
                Ok(x) => Some(x),
                Err(_) => None,
            }
        },
    }
}

/// Follows the references `ids`, and leaves out those that lead to nothing.
pub fn build_configurations_at<'a>(
    objects: &'a PBXObjectCollection,
    ids: &Vec<String>,
    trail: Option<&Trail>,
) -> (r: Vec<XCBuildConfiguration<'a>>)
    ensures
        build_configurations_view(r@) == get_build_configurations(
            objects@,
            texts_view(ids@),
            trail_view(trail),
        ),
    decreases objects@.len() - trail_view(trail).len(), 1int, ids@.len(),
{
    let ghost all = texts_view(ids@);
    let mut out: Vec<XCBuildConfiguration<'a>> = Vec::new();
    let mut i: usize = 0;
    assert(build_configurations_view(out@) =~= Seq::empty());
    assert(all.take(0) =~= Seq::empty());
    while i < ids.len()
        invariant
            i <= ids.len(),
            all == texts_view(ids@),
            build_configurations_view(out@) == get_build_configurations(
                objects@,
                all.take(i as int),
                trail_view(trail),
            ),
        decreases ids.len() - i,
    {
        assert(all.take(i + 1).drop_last() =~= all.take(i as int));
        assert(all.take(i + 1).last() == ids@[i as int]@);
        let ghost before = build_configurations_view(out@);
        match build_configuration_at(objects, ids[i].as_str(), trail) {
            Some(x) => {
                out.push(x);
                assert(
                    build_configurations_view(out@) =~= before.push(build_configuration_view(x))
                );
            },
            None => {},
        }
        i += 1;
    }
    assert(all.take(ids.len() as int) =~= all);
    out
}

impl<'a> AsPBXObject<'a> for XCBuildConfiguration<'a> {
    open spec fn described_by(
        objects: PBXHashMapView,
        id: Seq<char>,
        fields: PBXHashMapView,
    ) -> Result<XCBuildConfigurationView, PBXErrorView> {
        build_configuration_of(objects, id, fields, start_trail(objects, id))
    }

    /// The build configuration that the fields `value` of the object `id` describe,
    /// with what it refers to taken from `objects`. Fails when the object is
    /// of another kind or lacks a field that it must have.
    fn as_pbx_object(
        id: String,
        value: &'a PBXHashMap,
        objects: &'a PBXObjectCollection,
    ) -> (r: Result<XCBuildConfiguration<'a>, PBXError>) {
        if objects.0.contains_key(id.as_str()) {
            let step = Trail { id: id.as_str(), rest: None };
            proof {
                reveal_with_fuel(trail_view, 2);
                assert(trail_view(Some(&step)) =~= seq![id@]);
            }
            build_configuration_from(objects, id.as_str(), value, Some(&step))
        } else {
            build_configuration_from(objects, id.as_str(), value, None)
        }
    }
}

/// A list of build configurations.
#[derive(Debug)]
pub struct XCConfigurationList<'a> {
    /// The identifier of the object.
    pub id: String,
    /// The build configurations.
    pub build_configurations: Vec<XCBuildConfiguration<'a>>,
    /// Whether the default configuration is visible.
    pub default_configuration_is_visible: bool,
    /// The name of the default configuration.
    pub default_configuration_name: Option<String>,
}

/// The mathematical value of an [`XCConfigurationList`].
pub struct XCConfigurationListView {
    pub id: Seq<char>,
    pub build_configurations: Seq<XCBuildConfigurationView>,
    pub default_configuration_is_visible: bool,
    pub default_configuration_name: Option<Seq<char>>,
}

/// The mathematical value of `x`.
pub open spec fn configuration_list_view(x: XCConfigurationList) -> XCConfigurationListView {
    XCConfigurationListView {
        id: x.id@,
        build_configurations: build_configurations_view(x.build_configurations@),
        default_configuration_is_visible: x.default_configuration_is_visible,
        default_configuration_name: opt_text(x.default_configuration_name),
    }
}

/// The mathematical value of what may be absent.
pub open spec fn opt_configuration_list_view(
    o: Option<XCConfigurationList>,
) -> Option<XCConfigurationListView> {
    match o {
        Some(x) => Some(configuration_list_view(x)),
        None => None,
    }
}

impl<'a> View for XCConfigurationList<'a> {
    type V = XCConfigurationListView;

    open spec fn view(&self) -> XCConfigurationListView {
        configuration_list_view(*self)
    }
}

/// The configuration list that the fields `fields` of the object `id` describe,
/// built while the objects on `trail` are being built, this one among them.
/// The kind of the object is tested first, then the fields that must be
/// there, in the order of the fields of the result: the first that fails
/// gives the error.
pub open spec fn configuration_list_of(
    objects: PBXHashMapView,
    id: Seq<char>,
    fields: PBXHashMapView,
    trail: Seq<Seq<char>>,
) -> Result<XCConfigurationListView, PBXErrorView>
    decreases objects.len() - trail.len(), 2int, 0int,
{
    match object_kind(fields) {
        Err(e) => Err(error_within(e, id)),
        Ok(PBXObjectKindView::XCConfigurationList) => {
            if field_number(fields, "defaultConfigurationIsVisible"@) is None {
                Err(
                    error_within(
                        field_error(fields, "defaultConfigurationIsVisible"@, PBXValueKind::Number),
                        id,
                    ),
                )
            } else {
                Ok(XCConfigurationListView {
                    id,
                    build_configurations: get_build_configurations(
                        objects,
                        field_ids(fields, "buildConfigurations"@),
                        trail,
                    ),
                    default_configuration_is_visible: field_number(fields, "defaultConfigurationIsVisible"@).unwrap() == 1,
                    default_configuration_name: field_string(fields, "defaultConfigurationName"@),
                })
            }
        },
        Ok(_) => Err(PBXErrorView::KindMismatch { id }),
    }
}

/// The configuration list that the reference `id` leads to from the trail
/// `trail`: nothing when the reference is not followed, when it dangles, or
/// when the object cannot be built.
pub open spec fn get_configuration_list(
    objects: PBXHashMapView,
    id: Seq<char>,
    trail: Seq<Seq<char>>,
) -> Option<XCConfigurationListView>
    decreases objects.len() - trail.len(), 0int, 0int,
{
    if !can_follow(objects, id, trail) {
        None
    } else {
        match field_object(objects, id) {
            None => None,
            Some(fields) => match configuration_list_of(objects, id, fields, trail.push(id)) {
                Ok(x) => Some(x),
                Err(_) => None,
            },
        }
    }
}

/// Asked for by its type, a configuration list is what the reference to it leads to
/// from the empty trail.
pub proof fn lemma_built_configuration_list(objects: PBXHashMapView, id: Seq<char>)
    ensures
        built::<XCConfigurationList>(objects, id) == get_configuration_list(
            objects,
            id,
            Seq::empty(),
        ),
{
    lemma_field_index(objects, id);
    assert(Seq::<Seq<char>>::empty().push(id) =~= seq![id]);
}

/// Builds the configuration list that `fields` describe.
pub fn configuration_list_from<'a>(
    objects: &'a PBXObjectCollection,
    id: &str,
    fields: &'a PBXHashMap,
    trail: Option<&Trail>,
) -> (r: Result<XCConfigurationList<'a>, PBXError>)
    ensures
        match r {
            Ok(x) => configuration_list_of(objects@, id@, fields@, trail_view(trail)) == Ok::<
                XCConfigurationListView,
                PBXErrorView,
            >(configuration_list_view(x)),
            Err(e) => configuration_list_of(objects@, id@, fields@, trail_view(trail)) == Err::<
                XCConfigurationListView,
                PBXErrorView,
            >(e@),
        },
    decreases objects@.len() - trail_view(trail).len(), 2int, 0int,
{
    match within(kind_of_object(fields), id)? {
        PBXObjectKind::XCConfigurationList => {},
        _ => return Err(PBXError::KindMismatch { id: String::from_str(id) }),
    }
    let build_configurations = build_configurations_at(
        objects,
        &fields.ids("buildConfigurations"),
        trail,
    );
    let default_configuration_is_visible = *within(fields.try_get_number("defaultConfigurationIsVisible"), id)? == 1;
    let default_configuration_name = fields.text("defaultConfigurationName");
    Ok(XCConfigurationList {
        id: String::from_str(id),
        build_configurations,
        default_configuration_is_visible,
        default_configuration_name,
    })
}

/// Follows the reference `id` to a configuration list.
pub fn configuration_list_at<'a>(
    objects: &'a PBXObjectCollection,
    id: &str,
    trail: Option<&Trail>,
) -> (r: Option<XCConfigurationList<'a>>)
    ensures
        opt_configuration_list_view(r) == get_configuration_list(objects@, id@, trail_view(trail)),
    decreases objects@.len() - trail_view(trail).len(), 0int, 0int,
{
    if trail_reaches(trail, objects.len()) || trail_has(trail, id) {
        return None;
    }
    match objects.object(id) {
        None => None,
        Some(fields) => {
            let step = Trail { id, rest: trail };
            match configuration_list_from(objects, id, fields, Some(&step)) {
                Ok(x) => Some(x),
                Err(_) => None,
            }
        },
    }
}

impl<'a> AsPBXObject<'a> for XCConfigurationList<'a> {
    open spec fn described_by(
        objects: PBXHashMapView,
        id: Seq<char>,
        fields: PBXHashMapView,
    ) -> Result<XCConfigurationListView, PBXErrorView> {
        configuration_list_of(objects, id, fields, start_trail(objects, id))
    }

    /// The configuration list that the fields `value` of the object `id` describe,
    /// with what it refers to taken from `objects`. Fails when the object is
    /// of another kind or lacks a field that it must have.
    fn as_pbx_object(
        id: String,
        value: &'a PBXHashMap,
        objects: &'a PBXObjectCollection,
    ) -> (r: Result<XCConfigurationList<'a>, PBXError>) {
        if objects.0.contains_key(id.as_str()) {
            let step = Trail { id: id.as_str(), rest: None };
            proof {
                reveal_with_fuel(trail_view, 2);
                assert(trail_view(Some(&step)) =~= seq![id@]);
            }
            configuration_list_from(objects, id.as_str(), value, Some(&step))
        } else {
            configuration_list_from(objects, id.as_str(), value, None)
        }
    }
}

} // verus!
