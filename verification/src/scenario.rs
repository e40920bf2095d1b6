//! A whole small project, from end to end: what the queries give on a
//! collection that holds one project, one native target with one sources
//! build phase of two build files, two file references and one group.
use vstd::prelude::*;
use crate::build_phase::{get_build_file, get_build_files, get_build_phase, get_build_phases};
use crate::collection::{can_follow, object_kind};
use crate::error::PBXErrorView;
use crate::fs_reference::get_fs_reference;
use crate::kind::{PBXBuildPhaseKind, PBXFSReferenceKind, PBXObjectKindView, PBXTargetKind};
use crate::queries::{
    all_files, all_files_upto, all_targets, all_targets_upto, lemma_entry_is_found,
};
use crate::target::get_target;
use crate::value::{field_ids, field_object, field_string, PBXHashMapView, unique_keys};

verus! {

/// Whether `objects` is a project of the smallest kind: in this order, a
/// project, a native target with the name `name` and the one build phase
/// `ids[2]`, a sources build phase with the two build files `ids[3]` and
/// `ids[4]`, these two build files, two file references, and a group; each
/// under its own identifier.
pub open spec fn is_small_project(
    objects: PBXHashMapView,
    ids: Seq<Seq<char>>,
    name: Seq<char>,
) -> bool {
    &&& objects.len() == 8
    &&& ids.len() == 8
    &&& unique_keys(objects)
    &&& forall|i: int| 0 <= i < 8 ==> (#[trigger] objects[i]).0 == ids[i] && objects[i].1 is Object
    &&& kind_at(objects, 0) == Ok::<_, PBXErrorView>(PBXObjectKindView::PBXProject)
    &&& kind_at(objects, 1) == Ok::<_, PBXErrorView>(
        PBXObjectKindView::PBXTarget(PBXTargetKind::Native),
    )
    &&& kind_at(objects, 2) == Ok::<_, PBXErrorView>(
        PBXObjectKindView::PBXBuildPhase(PBXBuildPhaseKind::Sources),
    )
    &&& kind_at(objects, 3) == Ok::<_, PBXErrorView>(PBXObjectKindView::PBXBuildFile)
    &&& kind_at(objects, 4) == Ok::<_, PBXErrorView>(PBXObjectKindView::PBXBuildFile)
    &&& kind_at(objects, 5) == Ok::<_, PBXErrorView>(
        PBXObjectKindView::PBXFSReference(PBXFSReferenceKind::File),
    )
    &&& kind_at(objects, 6) == Ok::<_, PBXErrorView>(
        PBXObjectKindView::PBXFSReference(PBXFSReferenceKind::File),
    )
    &&& kind_at(objects, 7) == Ok::<_, PBXErrorView>(
        PBXObjectKindView::PBXFSReference(PBXFSReferenceKind::FileGroup),
    )
    &&& field_string(fields_at(objects, 1), "name"@) == Some(name)
    &&& field_string(fields_at(objects, 1), "productType"@) is Some
    &&& field_ids(fields_at(objects, 1), "buildPhases"@) == seq![ids[2]]
    &&& field_ids(fields_at(objects, 2), "files"@) == seq![ids[3], ids[4]]
}

/// The fields of the entry `i` of `objects`, which is an object.
pub open spec fn fields_at(objects: PBXHashMapView, i: int) -> PBXHashMapView {
    objects[i].1->Object_0
}

/// The kind of the entry `i` of `objects`.
pub open spec fn kind_at(
    objects: PBXHashMapView,
    i: int,
) -> Result<PBXObjectKindView, PBXErrorView> {
    object_kind(fields_at(objects, i))
}

/// On a project of the smallest kind, there is one target, it has the name of
/// the target and its one build phase, and the build phase has its two build
/// files, in order.
pub proof fn lemma_small_project_targets(
    objects: PBXHashMapView,
    ids: Seq<Seq<char>>,
    name: Seq<char>,
)
    requires
        is_small_project(objects, ids, name),
    ensures
        all_targets(objects).len() == 1,
        all_targets(objects)[0].id == ids[1],
        all_targets(objects)[0].name == Some(name),
        all_targets(objects)[0].kind == PBXTargetKind::Native,
        all_targets(objects)[0].build_phases.len() == 1,
        all_targets(objects)[0].build_phases[0].id == ids[2],
        all_targets(objects)[0].build_phases[0].kind == PBXBuildPhaseKind::Sources,
        all_targets(objects)[0].build_phases[0].files.len() == 2,
        all_targets(objects)[0].build_phases[0].files[0].id == ids[3],
        all_targets(objects)[0].build_phases[0].files[1].id == ids[4],
{
    assert forall|i: int| 0 <= i < 8 implies field_object(objects, ids[i]) == Some(
        fields_at(objects, i),
    ) by {
        lemma_entry_is_found(objects, i);
    }
    assert forall|i: int, j: int| 0 <= i < j < 8 implies ids[i] != ids[j] by {
        assert(objects[i].0 != objects[j].0);
    }
    let t = ids[1];
    let s = ids[2];
    let trail1 = Seq::<Seq<char>>::empty().push(t);
    let trail2 = trail1.push(s);
    // the two build files, from inside the build phase
    assert(!trail2.contains(ids[3]) && !trail2.contains(ids[4]));
    assert(can_follow(objects, ids[3], trail2) && can_follow(objects, ids[4], trail2));
    let b1 = get_build_file(objects, ids[3], trail2);
    let b2 = get_build_file(objects, ids[4], trail2);
    assert(b1 is Some && b1->Some_0.id == ids[3]);
    assert(b2 is Some && b2->Some_0.id == ids[4]);
    let files = get_build_files(objects, seq![ids[3], ids[4]], trail2);
    assert(files == seq![b1->Some_0, b2->Some_0]) by {
        reveal_with_fuel(get_build_files, 3);
        let two = seq![ids[3], ids[4]];
        assert(two.last() == ids[4]);
        assert(two.drop_last() =~= seq![ids[3]]);
        assert(seq![ids[3]].last() == ids[3]);
        assert(seq![ids[3]].drop_last() =~= Seq::<Seq<char>>::empty());
        assert(files =~= seq![b1->Some_0, b2->Some_0]);
    }
    // the build phase, from inside the target
    assert(!trail1.contains(s));
    assert(can_follow(objects, s, trail1));
    let phase = get_build_phase(objects, s, trail1);
    assert(phase is Some && phase->Some_0.id == s && phase->Some_0.kind
        == PBXBuildPhaseKind::Sources && phase->Some_0.files == files);
    let phases = get_build_phases(objects, seq![s], trail1);
    assert(phases == seq![phase->Some_0]) by {
        reveal_with_fuel(get_build_phases, 2);
        assert(seq![s].last() == s);
        assert(seq![s].drop_last() =~= Seq::<Seq<char>>::empty());
        assert(phases =~= seq![phase->Some_0]);
    }
    // the target
    assert(can_follow(objects, t, Seq::empty()));
    assert(Seq::<Seq<char>>::empty().push(t) == trail1);
    let target = get_target(objects, t, Seq::empty());
    assert(target is Some && target->Some_0.id == t && target->Some_0.name == Some(name)
        && target->Some_0.kind == PBXTargetKind::Native && target->Some_0.build_phases == phases);
    // the entries, one after the other
    assert(all_targets_upto(objects, 0) =~= Seq::empty());
    assert(all_targets_upto(objects, 1) == all_targets_upto(objects, 0));
    assert(all_targets_upto(objects, 2) == all_targets_upto(objects, 1).push(target->Some_0));
    assert(all_targets_upto(objects, 3) == all_targets_upto(objects, 2));
    assert(all_targets_upto(objects, 4) == all_targets_upto(objects, 3));
    assert(all_targets_upto(objects, 5) == all_targets_upto(objects, 4));
    assert(all_targets_upto(objects, 6) == all_targets_upto(objects, 5));
    assert(all_targets_upto(objects, 7) == all_targets_upto(objects, 6));
    assert(all_targets_upto(objects, 8) == all_targets_upto(objects, 7));
    assert(all_targets(objects) =~= seq![target->Some_0]);
}

/// On a project of the smallest kind, the files are the two file references:
/// the group is none of them.
pub proof fn lemma_small_project_files(
    objects: PBXHashMapView,
    ids: Seq<Seq<char>>,
    name: Seq<char>,
)
    requires
        is_small_project(objects, ids, name),
    ensures
        all_files(objects).len() == 2,
        all_files(objects)[0].id == ids[5],
        all_files(objects)[1].id == ids[6],
        all_files(objects)[0].kind == PBXFSReferenceKind::File,
        all_files(objects)[1].kind == PBXFSReferenceKind::File,
{
    assert forall|i: int| 0 <= i < 8 implies field_object(objects, ids[i]) == Some(
        fields_at(objects, i),
    ) by {
        lemma_entry_is_found(objects, i);
    }
    let f1 = get_fs_reference(objects, ids[5], Seq::empty());
    let f2 = get_fs_reference(objects, ids[6], Seq::empty());
    assert(can_follow(objects, ids[5], Seq::empty()) && can_follow(objects, ids[6], Seq::empty()));
    assert(f1 is Some && f1->Some_0.id == ids[5] && f1->Some_0.kind == PBXFSReferenceKind::File);
    assert(f2 is Some && f2->Some_0.id == ids[6] && f2->Some_0.kind == PBXFSReferenceKind::File);
    assert(all_files_upto(objects, 0) =~= Seq::empty());
    assert(all_files_upto(objects, 1) == all_files_upto(objects, 0));
    assert(all_files_upto(objects, 2) == all_files_upto(objects, 1));
    assert(all_files_upto(objects, 3) == all_files_upto(objects, 2));
    assert(all_files_upto(objects, 4) == all_files_upto(objects, 3));
    assert(all_files_upto(objects, 5) == all_files_upto(objects, 4));
    assert(all_files_upto(objects, 6) == all_files_upto(objects, 5).push(f1->Some_0));
    assert(all_files_upto(objects, 7) == all_files_upto(objects, 6).push(f2->Some_0));
    assert(all_files_upto(objects, 8) == all_files_upto(objects, 7));
    assert(all_files(objects) =~= seq![f1->Some_0, f2->Some_0]);
}

} // verus!
