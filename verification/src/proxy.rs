//! Proxies for objects of other containers.
use vstd::prelude::*;
use crate::collection::{
    AsPBXObject, can_follow, kind_of_object, object_kind, PBXObjectCollection, start_trail, Trail,
    trail_has, trail_reaches, trail_view,
};
use crate::error::{error_within, PBXError, PBXErrorView, PBXValueKind, within};
use crate::kind::{PBXObjectKind, PBXObjectKindView};
use crate::lookup::built;
use crate::text::opt_text;
use crate::value::{
    field_error, field_object, field_string, field_value, lemma_field_index, PBXHashMap,
    PBXHashMapView, PBXValue, PBXValueView,
};

verus! {

/// What a container item proxy stands for.
#[derive(Clone, Copy, Debug, PartialEq, Eq, Structural)]
pub enum PBXProxyType {
    /// A native target.
    NativeTarget,
    /// A reference.
    Reference,
    /// Something else, with the low eight bits of its number.
    Other(u8),
}

/// The proxy type that the value `v` gives: 1 is a native target, 2 a
/// reference, and any other number something else. Nothing when `v` is no
/// number.
pub open spec fn proxy_type_of(v: PBXValueView) -> Option<PBXProxyType> {
    match v {
        PBXValueView::Number(n) => if n == 1 {
            Some(PBXProxyType::NativeTarget)
        } else if n == 2 {
            Some(PBXProxyType::Reference)
        } else {
            Some(PBXProxyType::Other(n as u8))
        },
        _ => None,
    }
}

impl PBXProxyType {
    /// The proxy type that `value` gives, if `value` is a number.
    pub fn from_value(value: &PBXValue) -> (r: Option<PBXProxyType>)
        ensures
            r == proxy_type_of(value@),
    {
        match value {
            PBXValue::Number(n) => if *n == 1 {
                Some(PBXProxyType::NativeTarget)
            } else if *n == 2 {
                Some(PBXProxyType::Reference)
            } else {
                Some(PBXProxyType::Other(#[verifier::truncate] (*n as u8)))
            },
            _ => None,
        }
    }
}

/// A proxy for an object that may live in another project.
#[derive(Debug)]
pub struct PBXContainerItemProxy {
    /// The identifier of the object.
    pub id: String,
    /// The identifier of the project or of the file reference that holds the object.
    pub container_portal_reference: String,
    /// What the proxy stands for.
    pub proxy_type: Option<PBXProxyType>,
    /// The identifier of the object that the proxy stands for.
    pub remote_global_id_reference: Option<String>,
    /// What the other side is called.
    pub remote_info: Option<String>,
}

/// The mathematical value of a [`PBXContainerItemProxy`].
pub struct PBXContainerItemProxyView {
    pub id: Seq<char>,
    pub container_portal_reference: Seq<char>,
    pub proxy_type: Option<PBXProxyType>,
    pub remote_global_id_reference: Option<Seq<char>>,
    pub remote_info: Option<Seq<char>>,
}

/// The mathematical value of `x`.
pub open spec fn container_item_proxy_view(x: PBXContainerItemProxy) -> PBXContainerItemProxyView {
    PBXContainerItemProxyView {
        id: x.id@,
        container_portal_reference: x.container_portal_reference@,
        proxy_type: x.proxy_type,
        remote_global_id_reference: opt_text(x.remote_global_id_reference),
        remote_info: opt_text(x.remote_info),
    }
}

/// The mathematical value of what may be absent.
pub open spec fn opt_container_item_proxy_view(
    o: Option<PBXContainerItemProxy>,
) -> Option<PBXContainerItemProxyView> {
    match o {
        Some(x) => Some(container_item_proxy_view(x)),
        None => None,
    }
}

impl View for PBXContainerItemProxy {
    type V = PBXContainerItemProxyView;

    open spec fn view(&self) -> PBXContainerItemProxyView {
        container_item_proxy_view(*self)
    }
}

/// The container item proxy that the fields `fields` of the object `id` describe,
/// built while the objects on `trail` are being built, this one among them.
/// The kind of the object is tested first, then the fields that must be
/// there, in the order of the fields of the result: the first that fails
/// gives the error.
pub open spec fn container_item_proxy_of(
    objects: PBXHashMapView,
    id: Seq<char>,
    fields: PBXHashMapView,
    trail: Seq<Seq<char>>,
) -> Result<PBXContainerItemProxyView, PBXErrorView>
    decreases objects.len() - trail.len(), 2int, 0int,
{
    match object_kind(fields) {
        Err(e) => Err(error_within(e, id)),
        Ok(PBXObjectKindView::PBXContainerItemProxy) => {
            if field_string(fields, "containerPortal"@) is None {
                Err(error_within(field_error(fields, "containerPortal"@, PBXValueKind::String), id))
            } else {
                Ok(PBXContainerItemProxyView {
                    id,
                    container_portal_reference: field_string(fields, "containerPortal"@).unwrap(),
                    proxy_type: match field_value(fields, "proxyType"@) {
                        Some(v) => proxy_type_of(v),
                        None => None,
                    },
                    remote_global_id_reference: field_string(fields, "remoteGlobalIDString"@),
                    remote_info: field_string(fields, "remoteInfo"@),
                })
            }
        },
        Ok(_) => Err(PBXErrorView::KindMismatch { id }),
    }
}

/// The container item proxy that the reference `id` leads to from the trail
/// `trail`: nothing when the reference is not followed, when it dangles, or
/// when the object cannot be built.
pub open spec fn get_container_item_proxy(
    objects: PBXHashMapView,
    id: Seq<char>,
    trail: Seq<Seq<char>>,
) -> Option<PBXContainerItemProxyView>
    decreases objects.len() - trail.len(), 0int, 0int,
{
    if !can_follow(objects, id, trail) {
        None
    } else {
        match field_object(objects, id) {
            None => None,
            Some(fields) => match container_item_proxy_of(objects, id, fields, trail.push(id)) {
                Ok(x) => Some(x),
                Err(_) => None,
            },
        }
    }
}

/// Asked for by its type, a container item proxy is what the reference to it leads to
/// from the empty trail.
pub proof fn lemma_built_container_item_proxy(objects: PBXHashMapView, id: Seq<char>)
    ensures
        built::<PBXContainerItemProxy>(objects, id) == get_container_item_proxy(
            objects,
            id,
            Seq::empty(),
        ),
{
    lemma_field_index(objects, id);
    assert(Seq::<Seq<char>>::empty().push(id) =~= seq![id]);
}

/// Builds the container item proxy that `fields` describe.
pub fn container_item_proxy_from(
    objects: &PBXObjectCollection,
    id: &str,
    fields: &PBXHashMap,
    trail: Option<&Trail>,
) -> (r: Result<PBXContainerItemProxy, PBXError>)
    ensures
        match r {
            Ok(x) => container_item_proxy_of(objects@, id@, fields@, trail_view(trail)) == Ok::<
                PBXContainerItemProxyView,
                PBXErrorView,
            >(container_item_proxy_view(x)),
            Err(e) => container_item_proxy_of(objects@, id@, fields@, trail_view(trail)) == Err::<
                PBXContainerItemProxyView,
                PBXErrorView,
            >(e@),
        },
    decreases objects@.len() - trail_view(trail).len(), 2int, 0int,
{
    match within(kind_of_object(fields), id)? {
        PBXObjectKind::PBXContainerItemProxy => {},
        _ => return Err(PBXError::KindMismatch { id: String::from_str(id) }),
    }
    let container_portal_reference = within(fields.try_get_string("containerPortal"), id)?.clone();
    let proxy_type = match fields.get_value("proxyType") {
        Some(v) => PBXProxyType::from_value(v),
        None => None,
    };
    let remote_global_id_reference = fields.text("remoteGlobalIDString");
    let remote_info = fields.text("remoteInfo");
    Ok(PBXContainerItemProxy {
        id: String::from_str(id),
        container_portal_reference,
        proxy_type,
        remote_global_id_reference,
        remote_info,
    })
}

/// Follows the reference `id` to a container item proxy.
pub fn container_item_proxy_at(
    objects: &PBXObjectCollection,
    id: &str,
    trail: Option<&Trail>,
) -> (r: Option<PBXContainerItemProxy>)
    ensures
        opt_container_item_proxy_view(r) == get_container_item_proxy(
            objects@,
            id@,
            trail_view(trail),
        ),
    decreases objects@.len() - trail_view(trail).len(), 0int, 0int,
{
    if trail_reaches(trail, objects.len()) || trail_has(trail, id) {
        return None;
    }
    match objects.object(id) {
        None => None,
        Some(fields) => {
            let step = Trail { id, rest: trail };
            match container_item_proxy_from(objects, id, fields, Some(&step)) {
                Ok(x) => Some(x),
                Err(_) => None,
            }
        },
    }
}

impl<'a> AsPBXObject<'a> for PBXContainerItemProxy {
    open spec fn described_by(
        objects: PBXHashMapView,
        id: Seq<char>,
        fields: PBXHashMapView,
    ) -> Result<PBXContainerItemProxyView, PBXErrorView> {
        container_item_proxy_of(objects, id, fields, start_trail(objects, id))
    }

    /// The container item proxy that the fields `value` of the object `id` describe,
    /// with what it refers to taken from `objects`. Fails when the object is
    /// of another kind or lacks a field that it must have.
    fn as_pbx_object(
        id: String,
        value: &'a PBXHashMap,
        objects: &'a PBXObjectCollection,
    ) -> (r: Result<PBXContainerItemProxy, PBXError>) {
        if objects.0.contains_key(id.as_str()) {
            let step = Trail { id: id.as_str(), rest: None };
            proof {
                reveal_with_fuel(trail_view, 2);
                assert(trail_view(Some(&step)) =~= seq![id@]);
            }
            container_item_proxy_from(objects, id.as_str(), value, Some(&step))
        } else {
            container_item_proxy_from(objects, id.as_str(), value, None)
        }
    }
}

} // verus!
