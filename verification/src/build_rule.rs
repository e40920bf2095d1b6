//! Build rules.
use vstd::prelude::*;
use crate::collection::{
    AsPBXObject, can_follow, kind_of_object, object_kind, PBXObjectCollection, start_trail, Trail,
    trail_has, trail_reaches, trail_view,
};
use crate::error::{error_within, PBXError, PBXErrorView, within};
use crate::kind::{PBXObjectKind, PBXObjectKindView};
use crate::lookup::built;
use crate::text::{opt_text, opt_texts, texts_view};
use crate::value::{
    field_flag, field_object, field_string, field_texts, lemma_field_index, PBXHashMap,
    PBXHashMapView,
};

verus! {

/// A rule that says how files of one type are turned into output files.
#[derive(Debug)]
pub struct PBXBuildRule {
    /// The identifier of the object.
    pub id: String,
    /// The compiler specification.
    pub compiler_spec: Option<String>,
    /// The patterns of the files that the rule applies to.
    pub file_patterns: Option<String>,
    /// The type of the files that the rule applies to.
    pub file_type: Option<String>,
    /// Whether the rule can be edited.
    pub is_editable: Option<bool>,
    /// The name.
    pub name: Option<String>,
    /// The output files.
    pub output_files: Option<Vec<String>>,
    /// The input files.
    pub input_files: Option<Vec<String>>,
    /// The compiler flags of the output files.
    pub output_files_compiler_flags: Option<Vec<String>>,
    /// The script.
    pub script: Option<String>,
    /// Whether the rule runs once for each architecture.
    pub run_once_per_architecture: Option<bool>,
}

/// The mathematical value of a [`PBXBuildRule`].
pub struct PBXBuildRuleView {
    pub id: Seq<char>,
    pub compiler_spec: Option<Seq<char>>,
    pub file_patterns: Option<Seq<char>>,
    pub file_type: Option<Seq<char>>,
    pub is_editable: Option<bool>,
    pub name: Option<Seq<char>>,
    pub output_files: Option<Seq<Seq<char>>>,
    pub input_files: Option<Seq<Seq<char>>>,
    pub output_files_compiler_flags: Option<Seq<Seq<char>>>,
    pub script: Option<Seq<char>>,
    pub run_once_per_architecture: Option<bool>,
}

/// The mathematical value of `x`.
pub open spec fn build_rule_view(x: PBXBuildRule) -> PBXBuildRuleView {
    PBXBuildRuleView {
        id: x.id@,
        compiler_spec: opt_text(x.compiler_spec),
        file_patterns: opt_text(x.file_patterns),
        file_type: opt_text(x.file_type),
        is_editable: x.is_editable,
        name: opt_text(x.name),
        output_files: opt_texts(x.output_files),
        input_files: opt_texts(x.input_files),
        output_files_compiler_flags: opt_texts(x.output_files_compiler_flags),
        script: opt_text(x.script),
        run_once_per_architecture: x.run_once_per_architecture,
    }
}

/// The mathematical values of a list.
pub open spec fn build_rules_view(s: Seq<PBXBuildRule>) -> Seq<PBXBuildRuleView> {
    Seq::new(s.len(), |i: int| build_rule_view(s[i]))
}

/// The mathematical value of what may be absent.
pub open spec fn opt_build_rule_view(o: Option<PBXBuildRule>) -> Option<PBXBuildRuleView> {
    match o {
        Some(x) => Some(build_rule_view(x)),
        None => None,
    }
}

impl View for PBXBuildRule {
    type V = PBXBuildRuleView;

    open spec fn view(&self) -> PBXBuildRuleView {
        build_rule_view(*self)
    }
}

/// The build rule that the fields `fields` of the object `id` describe,
/// built while the objects on `trail` are being built, this one among them.
/// The kind of the object is tested first, then the fields that must be
/// there, in the order of the fields of the result: the first that fails
/// gives the error.
pub open spec fn build_rule_of(
    objects: PBXHashMapView,
    id: Seq<char>,
    fields: PBXHashMapView,
    trail: Seq<Seq<char>>,
) -> Result<PBXBuildRuleView, PBXErrorView>
    decreases objects.len() - trail.len(), 2int, 0int,
{
    match object_kind(fields) {
        Err(e) => Err(error_within(e, id)),
        Ok(PBXObjectKindView::PBXBuildRule) => {
            Ok(PBXBuildRuleView {
                id,
                compiler_spec: field_string(fields, "compilerSpec"@),
                file_patterns: field_string(fields, "filePatterns"@),
                file_type: field_string(fields, "fileType"@),
                is_editable: field_flag(fields, "isEditable"@),
                name: field_string(fields, "name"@),
                output_files: field_texts(fields, "outputFiles"@),
                input_files: field_texts(fields, "inputFiles"@),
                output_files_compiler_flags: field_texts(fields, "outputFilesCompilerFlags"@),
                script: field_string(fields, "script"@),
                run_once_per_architecture: field_flag(fields, "runOncePerArchitecture"@),
            })
        },
        Ok(_) => Err(PBXErrorView::KindMismatch { id }),
    }
}

/// The build rule that the reference `id` leads to from the trail
/// `trail`: nothing when the reference is not followed, when it dangles, or
/// when the object cannot be built.
pub open spec fn get_build_rule(
    objects: PBXHashMapView,
    id: Seq<char>,
    trail: Seq<Seq<char>>,
) -> Option<PBXBuildRuleView>
    decreases objects.len() - trail.len(), 0int, 0int,
{
    if !can_follow(objects, id, trail) {
        None
    } else {
        match field_object(objects, id) {
            None => None,
            Some(fields) => match build_rule_of(objects, id, fields, trail.push(id)) {
                Ok(x) => Some(x),
                Err(_) => None,
            },
        }
    }
}

/// What the references `ids` lead to, in order: a reference that leads to
/// nothing is left out.
pub open spec fn get_build_rules(
    objects: PBXHashMapView,
    ids: Seq<Seq<char>>,
    trail: Seq<Seq<char>>,
) -> Seq<PBXBuildRuleView>
    decreases objects.len() - trail.len(), 1int, ids.len(),
{
    if ids.len() == 0 {
        Seq::empty()
    } else {
        match get_build_rule(objects, ids.last(), trail) {
            Some(x) => get_build_rules(objects, ids.drop_last(), trail).push(x),
            None => get_build_rules(objects, ids.drop_last(), trail),
        }
    }
}

/// Asked for by its type, a build rule is what the reference to it leads to
/// from the empty trail.
pub proof fn lemma_built_build_rule(objects: PBXHashMapView, id: Seq<char>)
    ensures
        built::<PBXBuildRule>(objects, id) == get_build_rule(objects, id, Seq::empty()),
{
    lemma_field_index(objects, id);
    assert(Seq::<Seq<char>>::empty().push(id) =~= seq![id]);
}

/// What the references of two lists lead to, one list after the other, is what
/// the references of the two lists joined lead to.
pub proof fn lemma_get_build_rules_of_joined(
    objects: PBXHashMapView,
    a: Seq<Seq<char>>,
    b: Seq<Seq<char>>,
    trail: Seq<Seq<char>>,
)
    ensures
        get_build_rules(objects, a + b, trail) == get_build_rules(objects, a, trail) + get_build_rules(
            objects,
            b,
            trail,
        ),
    decreases b.len(),
{
    if b.len() == 0 {
        assert(a + b =~= a);
        assert(get_build_rules(objects, a, trail) + get_build_rules(objects, b, trail)
            =~= get_build_rules(objects, a, trail));
    } else {
        lemma_get_build_rules_of_joined(objects, a, b.drop_last(), trail);
        assert((a + b).drop_last() =~= a + b.drop_last());
        assert((a + b).last() == b.last());
        match get_build_rule(objects, b.last(), trail) {
            Some(x) => {
                assert((get_build_rules(objects, a, trail) + get_build_rules(
                    objects,
                    b.drop_last(),
                    trail,
                )).push(x) =~= get_build_rules(objects, a, trail) + get_build_rules(
                    objects,
                    b.drop_last(),
                    trail,
                ).push(x));
            },
            None => {},
        }
    }
}

/// A dangling reference in a list of references is passed over: the list
/// leads to what it leads to without it.
pub proof fn lemma_get_build_rules_skips_dangling(
    objects: PBXHashMapView,
    before: Seq<Seq<char>>,
    dangling: Seq<char>,
    after: Seq<Seq<char>>,
    trail: Seq<Seq<char>>,
)
    requires
        field_object(objects, dangling) is None,
    ensures
        get_build_rules(objects, before + seq![dangling] + after, trail) == get_build_rules(
            objects,
            before + after,
            trail,
        ),
{
    lemma_get_build_rules_of_joined(objects, before + seq![dangling], after, trail);
    lemma_get_build_rules_of_joined(objects, before, seq![dangling], trail);
    lemma_get_build_rules_of_joined(objects, before, after, trail);
    assert(seq![dangling].drop_last() =~= Seq::<Seq<char>>::empty());
    assert(get_build_rules(objects, seq![dangling], trail) =~= Seq::empty()) by {
        reveal_with_fuel(get_build_rules, 2);
    }
    assert(get_build_rules(objects, before, trail) + Seq::empty() =~= get_build_rules(
        objects,
        before,
        trail,
    ));
}

/// Builds the build rule that `fields` describe.
pub fn build_rule_from(
    objects: &PBXObjectCollection,
    id: &str,
    fields: &PBXHashMap,
    trail: Option<&Trail>,
) -> (r: Result<PBXBuildRule, PBXError>)
    ensures
        match r {
            Ok(x) => build_rule_of(objects@, id@, fields@, trail_view(trail)) == Ok::<
                PBXBuildRuleView,
                PBXErrorView,
            >(build_rule_view(x)),
            Err(e) => build_rule_of(objects@, id@, fields@, trail_view(trail)) == Err::<
                PBXBuildRuleView,
                PBXErrorView,
            >(e@),
        },
    decreases objects@.len() - trail_view(trail).len(), 2int, 0int,
{
    match within(kind_of_object(fields), id)? {
        PBXObjectKind::PBXBuildRule => {},
        _ => return Err(PBXError::KindMismatch { id: String::from_str(id) }),
    }
    let compiler_spec = fields.text("compilerSpec");
    let file_patterns = fields.text("filePatterns");
    let file_type = fields.text("fileType");
    let is_editable = fields.flag("isEditable");
    let name = fields.text("name");
    let output_files = fields.texts("outputFiles");
    let input_files = fields.texts("inputFiles");
    let output_files_compiler_flags = fields.texts("outputFilesCompilerFlags");
    let script = fields.text("script");
    let run_once_per_architecture = fields.flag("runOncePerArchitecture");
    Ok(PBXBuildRule {
        id: String::from_str(id),
        compiler_spec,
        file_patterns,
        file_type,
        is_editable,
        name,
        output_files,
        input_files,
        output_files_compiler_flags,
        script,
        run_once_per_architecture,
    })
}

/// Follows the reference `id` to a build rule.
pub fn build_rule_at(
    objects: &PBXObjectCollection,
    id: &str,
    trail: Option<&Trail>,
) -> (r: Option<PBXBuildRule>)
    ensures
        opt_build_rule_view(r) == get_build_rule(objects@, id@, trail_view(trail)),
    decreases objects@.len() - trail_view(trail).len(), 0int, 0int,
{
    if trail_reaches(trail, objects.len()) || trail_has(trail, id) {
        return None;
    }
    match objects.object(id) {
        None => None,
        Some(fields) => {
            let step = Trail { id, rest: trail };
            match build_rule_from(objects, id, fields, Some(&step)) {
                Ok(x) => Some(x),
                Err(_) => None,
            }
        },
    }
}

/// Follows the references `ids`, and leaves out those that lead to nothing.
pub fn build_rules_at(
    objects: &PBXObjectCollection,
    ids: &Vec<String>,
    trail: Option<&Trail>,
) -> (r: Vec<PBXBuildRule>)
    ensures
        build_rules_view(r@) == get_build_rules(objects@, texts_view(ids@), trail_view(trail)),
    decreases objects@.len() - trail_view(trail).len(), 1int, ids@.len(),
{
    let ghost all = texts_view(ids@);
    let mut out: Vec<PBXBuildRule> = Vec::new();
    let mut i: usize = 0;
    assert(build_rules_view(out@) =~= Seq::empty());
    assert(all.take(0) =~= Seq::empty());
    while i < ids.len()
        invariant
            i <= ids.len(),
            all == texts_view(ids@),
            build_rules_view(out@) == get_build_rules(
                objects@,
                all.take(i as int),
                trail_view(trail),
            ),
        decreases ids.len() - i,
    {
        assert(all.take(i + 1).drop_last() =~= all.take(i as int));
        assert(all.take(i + 1).last() == ids@[i as int]@);
        let ghost before = build_rules_view(out@);
        match build_rule_at(objects, ids[i].as_str(), trail) {
            Some(x) => {
                out.push(x);
                assert(build_rules_view(out@) =~= before.push(build_rule_view(x)));
            },
            None => {},
        }
        i += 1;
    }
    assert(all.take(ids.len() as int) =~= all);
    out
}

impl<'a> AsPBXObject<'a> for PBXBuildRule {
    open spec fn described_by(
        objects: PBXHashMapView,
        id: Seq<char>,
        fields: PBXHashMapView,
    ) -> Result<PBXBuildRuleView, PBXErrorView> {
        build_rule_of(objects, id, fields, start_trail(objects, id))
    }

    /// The build rule that the fields `value` of the object `id` describe,
    /// with what it refers to taken from `objects`. Fails when the object is
    /// of another kind or lacks a field that it must have.
    fn as_pbx_object(
        id: String,
        value: &'a PBXHashMap,
        objects: &'a PBXObjectCollection,
    ) -> (r: Result<PBXBuildRule, PBXError>) {
        if objects.0.contains_key(id.as_str()) {
            let step = Trail { id: id.as_str(), rest: None };
            proof {
                reveal_with_fuel(trail_view, 2);
                assert(trail_view(Some(&step)) =~= seq![id@]);
            }
            build_rule_from(objects, id.as_str(), value, Some(&step))
        } else {
            build_rule_from(objects, id.as_str(), value, None)
        }
    }
}

} // verus!
