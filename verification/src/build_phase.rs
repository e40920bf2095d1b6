//! Build phases and the files they use.
use vstd::prelude::*;
use crate::collection::{
    AsPBXObject, can_follow, kind_of_object, object_kind, PBXObjectCollection, start_trail, Trail,
    trail_has, trail_reaches, trail_view,
};
use crate::error::{error_within, PBXError, PBXErrorView, PBXValueKind, within};
use crate::fs_reference::{
    fs_reference_at, get_fs_reference, opt_fs_reference_view, PBXFSReference, PBXFSReferenceView,
};
use crate::kind::{PBXBuildPhaseKind, PBXObjectKind, PBXObjectKindView};
use crate::lookup::built;
use crate::package::{
    get_swift_package_product_dependency, opt_swift_package_product_dependency_view,
    swift_package_product_dependency_at, XCSwiftPackageProductDependency,
    XCSwiftPackageProductDependencyView,
};
use crate::text::{opt_text, opt_texts, texts_view};
use crate::value::{
    field_error, field_flag_or, field_ids, field_number_or, field_object, field_string, field_texts,
    field_value, field_vec, lemma_field_index, PBXHashMap, PBXHashMapView, PBXValue, PBXValueView,
    strings_of,
};

verus! {

/// What a build phase that runs a shell script has beyond the other build phases.
#[derive(Debug)]
pub struct PBXShellScriptBuildPhase {
    /// The name of the phase.
    pub name: Option<String>,
    /// The input paths.
    pub input_paths: Vec<String>,
    /// The output paths.
    pub output_paths: Vec<String>,
    /// The path of the shell.
    pub shell_path: Option<String>,
    /// The script.
    pub shell_script: Option<String>,
    /// Whether the environment variables are shown in the log.
    pub show_env_vars_in_log: bool,
    /// Whether the script runs in every incremental build.
    pub always_out_of_date: bool,
    /// The path of the file that lists the dependencies found.
    pub dependency_file: Option<String>,
}

/// The mathematical value of a [`PBXShellScriptBuildPhase`].
pub struct PBXShellScriptBuildPhaseView {
    pub name: Option<Seq<char>>,
    pub input_paths: Seq<Seq<char>>,
    pub output_paths: Seq<Seq<char>>,
    pub shell_path: Option<Seq<char>>,
    pub shell_script: Option<Seq<char>>,
    pub show_env_vars_in_log: bool,
    pub always_out_of_date: bool,
    pub dependency_file: Option<Seq<char>>,
}

/// The mathematical value of `x`.
pub open spec fn shell_script_view(x: PBXShellScriptBuildPhase) -> PBXShellScriptBuildPhaseView {
    PBXShellScriptBuildPhaseView {
        name: opt_text(x.name),
        input_paths: texts_view(x.input_paths@),
        output_paths: texts_view(x.output_paths@),
        shell_path: opt_text(x.shell_path),
        shell_script: opt_text(x.shell_script),
        show_env_vars_in_log: x.show_env_vars_in_log,
        always_out_of_date: x.always_out_of_date,
        dependency_file: opt_text(x.dependency_file),
    }
}

/// The mathematical value of what may be absent.
pub open spec fn opt_shell_script_view(
    o: Option<PBXShellScriptBuildPhase>,
) -> Option<PBXShellScriptBuildPhaseView> {
    match o {
        Some(x) => Some(shell_script_view(x)),
        None => None,
    }
}

impl View for PBXShellScriptBuildPhase {
    type V = PBXShellScriptBuildPhaseView;

    open spec fn view(&self) -> PBXShellScriptBuildPhaseView {
        shell_script_view(*self)
    }
}

/// What the fields `fields` of a shell script build phase say of the script:
/// the input and the output paths must be there.
pub open spec fn shell_script_of(
    fields: PBXHashMapView,
) -> Result<PBXShellScriptBuildPhaseView, PBXErrorView> {
    if field_vec(fields, "inputPaths"@) is None {
        Err(field_error(fields, "inputPaths"@, PBXValueKind::Vec))
    } else if field_vec(fields, "outputPaths"@) is None {
        Err(field_error(fields, "outputPaths"@, PBXValueKind::Vec))
    } else {
        Ok(PBXShellScriptBuildPhaseView {
            name: field_string(fields, "name"@),
            input_paths: strings_of(field_vec(fields, "inputPaths"@).unwrap()),
            output_paths: strings_of(field_vec(fields, "outputPaths"@).unwrap()),
            shell_path: field_string(fields, "shellPath"@),
            shell_script: field_string(fields, "shellScript"@),
            show_env_vars_in_log: field_flag_or(fields, "showEnvVarsInLog"@, true),
            always_out_of_date: field_flag_or(fields, "alwaysOutOfDate"@, false),
            dependency_file: field_string(fields, "dependencyFile"@),
        })
    }
}

/// Reads what `fields` say of the script of a shell script build phase.
pub fn shell_script_from(fields: &PBXHashMap) -> (r: Result<PBXShellScriptBuildPhase, PBXError>)
    ensures
        match r {
            Ok(x) => shell_script_of(fields@) == Ok::<PBXShellScriptBuildPhaseView, PBXErrorView>(
                shell_script_view(x),
            ),
            Err(e) => shell_script_of(fields@) == Err::<PBXShellScriptBuildPhaseView, PBXErrorView>(
                e@,
            ),
        },
{
    let name = fields.text("name");
    let input_paths = fields.try_get_vec("inputPaths")?.to_vec_strings();
    let output_paths = fields.try_get_vec("outputPaths")?.to_vec_strings();
    let shell_path = fields.text("shellPath");
    let shell_script = fields.text("shellScript");
    let show_env_vars_in_log = fields.flag_or("showEnvVarsInLog", true);
    let always_out_of_date = fields.flag_or("alwaysOutOfDate", false);
    let dependency_file = fields.text("dependencyFile");
    Ok(PBXShellScriptBuildPhase {
        name,
        input_paths,
        output_paths,
        shell_path,
        shell_script,
        show_env_vars_in_log,
        always_out_of_date,
        dependency_file,
    })
}

/// A file as a build phase uses it.
#[derive(Debug)]
pub struct PBXBuildFile<'a> {
    /// The identifier of the object.
    pub id: String,
    /// The settings of the file.
    pub settings: Option<&'a PBXValue>,
    /// The platform filter.
    pub platform_filter: Option<String>,
    /// The file.
    pub file: Option<PBXFSReference>,
    /// The Swift package product.
    pub product: Option<XCSwiftPackageProductDependency>,
    /// The build phase that the file belongs to.
    pub build_phase: Option<PBXBuildPhase<'a>>,
}

/// The mathematical value of a [`PBXBuildFile`].
pub struct PBXBuildFileView {
    pub id: Seq<char>,
    pub settings: Option<PBXValueView>,
    pub platform_filter: Option<Seq<char>>,
    pub file: Option<PBXFSReferenceView>,
    pub product: Option<XCSwiftPackageProductDependencyView>,
    pub build_phase: Option<PBXBuildPhaseView>,
}

/// The mathematical value of `x`.
pub open spec fn build_file_view(x: PBXBuildFile) -> PBXBuildFileView
    decreases x,
{
    PBXBuildFileView {
        id: x.id@,
        settings: match x.settings {
            Some(v) => Some(v@),
            None => None,
        },
        platform_filter: opt_text(x.platform_filter),
        file: opt_fs_reference_view(x.file),
        product: opt_swift_package_product_dependency_view(x.product),
        build_phase: opt_build_phase_view(x.build_phase),
    }
}

/// The mathematical values of a list.
pub open spec fn build_files_view(s: Seq<PBXBuildFile>) -> Seq<PBXBuildFileView>
    decreases s,
{
    Seq::new(
        s.len(),
        |i: int|
            if 0 <= i < s.len() {
                build_file_view(s[i])
            } else {
                arbitrary()
            },
    )
}

/// The mathematical value of what may be absent.
pub open spec fn opt_build_file_view(o: Option<PBXBuildFile>) -> Option<PBXBuildFileView>
    decreases o,
{
    match o {
        Some(x) => Some(build_file_view(x)),
        None => None,
    }
}

impl<'a> View for PBXBuildFile<'a> {
    type V = PBXBuildFileView;

    open spec fn view(&self) -> PBXBuildFileView {
        build_file_view(*self)
    }
}

/// The build file that the fields `fields` of the object `id` describe,
/// built while the objects on `trail` are being built, this one among them.
/// The kind of the object is tested first, then the fields that must be
/// there, in the order of the fields of the result: the first that fails
/// gives the error.
pub open spec fn build_file_of(
    objects: PBXHashMapView,
    id: Seq<char>,
    fields: PBXHashMapView,
    trail: Seq<Seq<char>>,
) -> Result<PBXBuildFileView, PBXErrorView>
    decreases objects.len() - trail.len(), 2int, 0int,
{
    match object_kind(fields) {
        Err(e) => Err(error_within(e, id)),
        Ok(PBXObjectKindView::PBXBuildFile) => {
            Ok(PBXBuildFileView {
                id,
                settings: field_value(fields, "settings"@),
                platform_filter: field_string(fields, "platformFilter"@),
                file: match field_string(fields, "fileRef"@) {
                    Some(key) => get_fs_reference(objects, key, trail),
                    None => None,
                },
                product: match field_string(fields, "productRef"@) {
                    Some(key) => get_swift_package_product_dependency(objects, key, trail),
                    None => None,
                },
                build_phase: match field_string(fields, "buildPhaseReference"@) {
                    Some(key) => get_build_phase(objects, key, trail),
                    None => None,
                },
            })
        },
        Ok(_) => Err(PBXErrorView::KindMismatch { id }),
    }
}

/// The build file that the reference `id` leads to from the trail
/// `trail`: nothing when the reference is not followed, when it dangles, or
/// when the object cannot be built.
pub open spec fn get_build_file(
    objects: PBXHashMapView,
    id: Seq<char>,
    trail: Seq<Seq<char>>,
) -> Option<PBXBuildFileView>
    decreases objects.len() - trail.len(), 0int, 0int,
{
    if !can_follow(objects, id, trail) {
        None
    } else {
        match field_object(objects, id) {
            None => None,
            Some(fields) => match build_file_of(objects, id, fields, trail.push(id)) {
                Ok(x) => Some(x),
                Err(_) => None,
            },
        }
    }
}

/// What the references `ids` lead to, in order: a reference that leads to
/// nothing is left out.
pub open spec fn get_build_files(
    objects: PBXHashMapView,
    ids: Seq<Seq<char>>,
    trail: Seq<Seq<char>>,
) -> Seq<PBXBuildFileView>
    decreases objects.len() - trail.len(), 1int, ids.len(),
{
    if ids.len() == 0 {
        Seq::empty()
    } else {
        match get_build_file(objects, ids.last(), trail) {
            Some(x) => get_build_files(objects, ids.drop_last(), trail).push(x),
            None => get_build_files(objects, ids.drop_last(), trail),
        }
    }
}

/// Asked for by its type, a build file is what the reference to it leads to
/// from the empty trail.
pub proof fn lemma_built_build_file(objects: PBXHashMapView, id: Seq<char>)
    ensures
        built::<PBXBuildFile>(objects, id) == get_build_file(objects, id, Seq::empty()),
{
    lemma_field_index(objects, id);
    assert(Seq::<Seq<char>>::empty().push(id) =~= seq![id]);
}

/// What the references of two lists lead to, one list after the other, is what
/// the references of the two lists joined lead to.
pub proof fn lemma_get_build_files_of_joined(
    objects: PBXHashMapView,
    a: Seq<Seq<char>>,
    b: Seq<Seq<char>>,
    trail: Seq<Seq<char>>,
)
    ensures
        get_build_files(objects, a + b, trail) == get_build_files(objects, a, trail) + get_build_files(
            objects,
            b,
            trail,
        ),
    decreases b.len(),
{
    if b.len() == 0 {
        assert(a + b =~= a);
        assert(get_build_files(objects, a, trail) + get_build_files(objects, b, trail)
            =~= get_build_files(objects, a, trail));
    } else {
        lemma_get_build_files_of_joined(objects, a, b.drop_last(), trail);
        assert((a + b).drop_last() =~= a + b.drop_last());
        assert((a + b).last() == b.last());
        match get_build_file(objects, b.last(), trail) {
            Some(x) => {
                assert((get_build_files(objects, a, trail) + get_build_files(
                    objects,
                    b.drop_last(),
                    trail,
                )).push(x) =~= get_build_files(objects, a, trail) + get_build_files(
                    objects,
                    b.drop_last(),
                    trail,
                ).push(x));
            },
            None => {},
        }
    }
}

/// A dangling reference in a list of references is passed over: the list
/// leads to what it leads to without it.
pub proof fn lemma_get_build_files_skips_dangling(
    objects: PBXHashMapView,
    before: Seq<Seq<char>>,
    dangling: Seq<char>,
    after: Seq<Seq<char>>,
    trail: Seq<Seq<char>>,
)
    requires
        field_object(objects, dangling) is None,
    ensures
        get_build_files(objects, before + seq![dangling] + after, trail) == get_build_files(
            objects,
            before + after,
            trail,
        ),
{
    lemma_get_build_files_of_joined(objects, before + seq![dangling], after, trail);
    lemma_get_build_files_of_joined(objects, before, seq![dangling], trail);
    lemma_get_build_files_of_joined(objects, before, after, trail);
    assert(seq![dangling].drop_last() =~= Seq::<Seq<char>>::empty());
    assert(get_build_files(objects, seq![dangling], trail) =~= Seq::empty()) by {
        reveal_with_fuel(get_build_files, 2);
    }
    assert(get_build_files(objects, before, trail) + Seq::empty() =~= get_build_files(
        objects,
        before,
        trail,
    ));
}

/// Builds the build file that `fields` describe.
pub fn build_file_from<'a>(
    objects: &'a PBXObjectCollection,
    id: &str,
    fields: &'a PBXHashMap,
    trail: Option<&Trail>,
) -> (r: Result<PBXBuildFile<'a>, PBXError>)
    ensures
        match r {
            Ok(x) => build_file_of(objects@, id@, fields@, trail_view(trail)) == Ok::<
                PBXBuildFileView,
                PBXErrorView,
            >(build_file_view(x)),
            Err(e) => build_file_of(objects@, id@, fields@, trail_view(trail)) == Err::<
                PBXBuildFileView,
                PBXErrorView,
            >(e@),
        },
    decreases objects@.len() - trail_view(trail).len(), 2int, 0int,
{
    match within(kind_of_object(fields), id)? {
        PBXObjectKind::PBXBuildFile => {},
        _ => return Err(PBXError::KindMismatch { id: String::from_str(id) }),
    }
    let settings = fields.get_value("settings");
    let platform_filter = fields.text("platformFilter");
    let file = match fields.get_string("fileRef") {
        Some(key) => fs_reference_at(objects, key.as_str(), trail),
        None => None,
    };
    let product = match fields.get_string("productRef") {
        Some(key) => swift_package_product_dependency_at(objects, key.as_str(), trail),
        None => None,
    };
    let build_phase = match fields.get_string("buildPhaseReference") {
        Some(key) => build_phase_at(objects, key.as_str(), trail),
        None => None,
    };
    Ok(PBXBuildFile {
        id: String::from_str(id),
        settings,
        platform_filter,
        file,
        product,
        build_phase,
    })
}

/// Follows the reference `id` to a build file.
pub fn build_file_at<'a>(
    objects: &'a PBXObjectCollection,
    id: &str,
    trail: Option<&Trail>,
) -> (r: Option<PBXBuildFile<'a>>)
    ensures
        opt_build_file_view(r) == get_build_file(objects@, id@, trail_view(trail)),
    decreases objects@.len() - trail_view(trail).len(), 0int, 0int,
{
    if trail_reaches(trail, objects.len()) || trail_has(trail, id) {
        return None;
    }
    match objects.object(id) {
        None => None,
        Some(fields) => {
            let step = Trail { id, rest: trail };
            match build_file_from(objects, id, fields, Some(&step)) {
                Ok(x) => Some(x),
                Err(_) => None,
            }
        },
    }
}

/// Follows the references `ids`, and leaves out those that lead to nothing.
pub fn build_files_at<'a>(
    objects: &'a PBXObjectCollection,
    ids: &Vec<String>,
    trail: Option<&Trail>,
) -> (r: Vec<PBXBuildFile<'a>>)
    ensures
        build_files_view(r@) == get_build_files(objects@, texts_view(ids@), trail_view(trail)),
    decreases objects@.len() - trail_view(trail).len(), 1int, ids@.len(),
{
    let ghost all = texts_view(ids@);
    let mut out: Vec<PBXBuildFile<'a>> = Vec::new();
    let mut i: usize = 0;
    assert(build_files_view(out@) =~= Seq::empty());
    assert(all.take(0) =~= Seq::empty());
    while i < ids.len()
        invariant
            i <= ids.len(),
            all == texts_view(ids@),
            build_files_view(out@) == get_build_files(
                objects@,
                all.take(i as int),
                trail_view(trail),
            ),
        decreases ids.len() - i,
    {
        assert(all.take(i + 1).drop_last() =~= all.take(i as int));
        assert(all.take(i + 1).last() == ids@[i as int]@);
        let ghost before = build_files_view(out@);
        match build_file_at(objects, ids[i].as_str(), trail) {
            Some(x) => {
                out.push(x);
                assert(build_files_view(out@) =~= before.push(build_file_view(x)));
            },
            None => {},
        }
        i += 1;
    }
    assert(all.take(ids.len() as int) =~= all);
    out
}

impl<'a> AsPBXObject<'a> for PBXBuildFile<'a> {
    open spec fn described_by(
        objects: PBXHashMapView,
        id: Seq<char>,
        fields: PBXHashMapView,
    ) -> Result<PBXBuildFileView, PBXErrorView> {
        build_file_of(objects, id, fields, start_trail(objects, id))
    }

    /// The build file that the fields `value` of the object `id` describe,
    /// with what it refers to taken from `objects`. Fails when the object is
    /// of another kind or lacks a field that it must have.
    fn as_pbx_object(
        id: String,
        value: &'a PBXHashMap,
        objects: &'a PBXObjectCollection,
    ) -> (r: Result<PBXBuildFile<'a>, PBXError>) {
        if objects.0.contains_key(id.as_str()) {
            let step = Trail { id: id.as_str(), rest: None };
            proof {
                reveal_with_fuel(trail_view, 2);
                assert(trail_view(Some(&step)) =~= seq![id@]);
            }
            build_file_from(objects, id.as_str(), value, Some(&step))
        } else {
            build_file_from(objects, id.as_str(), value, None)
        }
    }
}

/// A build phase of any kind.
#[derive(Debug)]
pub struct PBXBuildPhase<'a> {
    /// The identifier of the object.
    pub id: String,
    /// The build action mask.
    pub build_action_mask: isize,
    /// The files of the phase.
    pub files: Vec<PBXBuildFile<'a>>,
    /// The paths of the lists of input files.
    pub input_file_list_paths: Option<Vec<String>>,
    /// The paths of the lists of output files.
    pub output_file_list_paths: Option<Vec<String>>,
    /// Whether the phase runs only when deployment postprocessing is on.
    pub run_only_for_deployment_postprocessing: bool,
    /// The kind of the phase.
    pub kind: PBXBuildPhaseKind,
    /// What only a shell script phase has.
    pub inner: Option<PBXShellScriptBuildPhase>,
}

/// The mathematical value of a [`PBXBuildPhase`].
pub struct PBXBuildPhaseView {
    pub id: Seq<char>,
    pub build_action_mask: int,
    pub files: Seq<PBXBuildFileView>,
    pub input_file_list_paths: Option<Seq<Seq<char>>>,
    pub output_file_list_paths: Option<Seq<Seq<char>>>,
    pub run_only_for_deployment_postprocessing: bool,
    pub kind: PBXBuildPhaseKind,
    pub inner: Option<PBXShellScriptBuildPhaseView>,
}

/// The mathematical value of `x`.
pub open spec fn build_phase_view(x: PBXBuildPhase) -> PBXBuildPhaseView
    decreases x,
{
    PBXBuildPhaseView {
        id: x.id@,
        build_action_mask: x.build_action_mask as int,
        files: build_files_view(x.files@),
        input_file_list_paths: opt_texts(x.input_file_list_paths),
        output_file_list_paths: opt_texts(x.output_file_list_paths),
        run_only_for_deployment_postprocessing: x.run_only_for_deployment_postprocessing,
        kind: x.kind,
        inner: opt_shell_script_view(x.inner),
    }
}

/// The mathematical values of a list.
pub open spec fn build_phases_view(s: Seq<PBXBuildPhase>) -> Seq<PBXBuildPhaseView>
    decreases s,
{
    Seq::new(
        s.len(),
        |i: int|
            if 0 <= i < s.len() {
                build_phase_view(s[i])
            } else {
                arbitrary()
            },
    )
}

/// The mathematical value of what may be absent.
pub open spec fn opt_build_phase_view(o: Option<PBXBuildPhase>) -> Option<PBXBuildPhaseView>
    decreases o,
{
    match o {
        Some(x) => Some(build_phase_view(x)),
        None => None,
    }
}

impl<'a> View for PBXBuildPhase<'a> {
    type V = PBXBuildPhaseView;

    open spec fn view(&self) -> PBXBuildPhaseView {
        build_phase_view(*self)
    }
}

/// The build phase that the fields `fields` of the object `id` describe,
/// built while the objects on `trail` are being built, this one among them.
/// The kind of the object is tested first, then the fields that must be
/// there, in the order of the fields of the result: the first that fails
/// gives the error.
pub open spec fn build_phase_of(
    objects: PBXHashMapView,
    id: Seq<char>,
    fields: PBXHashMapView,
    trail: Seq<Seq<char>>,
) -> Result<PBXBuildPhaseView, PBXErrorView>
    decreases objects.len() - trail.len(), 2int, 0int,
{
    match object_kind(fields) {
        Err(e) => Err(error_within(e, id)),
        Ok(PBXObjectKindView::PBXBuildPhase(kind)) => {
            if kind == PBXBuildPhaseKind::RunScript && shell_script_of(fields) is Err {
                Err(error_within(shell_script_of(fields)->Err_0, id))
            } else {
                Ok(PBXBuildPhaseView {
                    id,
                    build_action_mask: field_number_or(fields, "buildActionMask"@, 2147483647),
                    files: get_build_files(objects, field_ids(fields, "files"@), trail),
                    input_file_list_paths: field_texts(fields, "inputFileListPaths"@),
                    output_file_list_paths: field_texts(fields, "outputFileListPaths"@),
                    run_only_for_deployment_postprocessing: field_flag_or(
                        fields,
                        "runOnlyForDeploymentPostprocessing"@,
                        false,
                    ),
                    kind,
                    inner: if kind == PBXBuildPhaseKind::RunScript {
                        Some(shell_script_of(fields)->Ok_0)
                    } else {
                        None
                    },
                })
            }
        },
        Ok(_) => Err(PBXErrorView::KindMismatch { id }),
    }
}

/// The build phase that the reference `id` leads to from the trail
/// `trail`: nothing when the reference is not followed, when it dangles, or
/// when the object cannot be built.
pub open spec fn get_build_phase(
    objects: PBXHashMapView,
    id: Seq<char>,
    trail: Seq<Seq<char>>,
) -> Option<PBXBuildPhaseView>
    decreases objects.len() - trail.len(), 0int, 0int,
{
    if !can_follow(objects, id, trail) {
        None
    } else {
        match field_object(objects, id) {
            None => None,
            Some(fields) => match build_phase_of(objects, id, fields, trail.push(id)) {
                Ok(x) => Some(x),
                Err(_) => None,
            },
        }
    }
}

/// What the references `ids` lead to, in order: a reference that leads to
/// nothing is left out.
pub open spec fn get_build_phases(
    objects: PBXHashMapView,
    ids: Seq<Seq<char>>,
    trail: Seq<Seq<char>>,
) -> Seq<PBXBuildPhaseView>
    decreases objects.len() - trail.len(), 1int, ids.len(),
{
    if ids.len() == 0 {
        Seq::empty()
    } else {
        match get_build_phase(objects, ids.last(), trail) {
            Some(x) => get_build_phases(objects, ids.drop_last(), trail).push(x),
            None => get_build_phases(objects, ids.drop_last(), trail),
        }
    }
}

/// Asked for by its type, a build phase is what the reference to it leads to
/// from the empty trail.
pub proof fn lemma_built_build_phase(objects: PBXHashMapView, id: Seq<char>)
    ensures
        built::<PBXBuildPhase>(objects, id) == get_build_phase(objects, id, Seq::empty()),
{
    lemma_field_index(objects, id);
    assert(Seq::<Seq<char>>::empty().push(id) =~= seq![id]);
}

/// What the references of two lists lead to, one list after the other, is what
/// the references of the two lists joined lead to.
pub proof fn lemma_get_build_phases_of_joined(
    objects: PBXHashMapView,
    a: Seq<Seq<char>>,
    b: Seq<Seq<char>>,
    trail: Seq<Seq<char>>,
)
    ensures
        get_build_phases(objects, a + b, trail) == get_build_phases(objects, a, trail) + get_build_phases(
            objects,
            b,
            trail,
        ),
    decreases b.len(),
{
    if b.len() == 0 {
        assert(a + b =~= a);
        assert(get_build_phases(objects, a, trail) + get_build_phases(objects, b, trail)
            =~= get_build_phases(objects, a, trail));
    } else {
        lemma_get_build_phases_of_joined(objects, a, b.drop_last(), trail);
        assert((a + b).drop_last() =~= a + b.drop_last());
        assert((a + b).last() == b.last());
        match get_build_phase(objects, b.last(), trail) {
            Some(x) => {
                assert((get_build_phases(objects, a, trail) + get_build_phases(
                    objects,
                    b.drop_last(),
                    trail,
                )).push(x) =~= get_build_phases(objects, a, trail) + get_build_phases(
                    objects,
                    b.drop_last(),
                    trail,
                ).push(x));
            },
            None => {},
        }
    }
}

/// A dangling reference in a list of references is passed over: the list
/// leads to what it leads to without it.
pub proof fn lemma_get_build_phases_skips_dangling(
    objects: PBXHashMapView,
    before: Seq<Seq<char>>,
    dangling: Seq<char>,
    after: Seq<Seq<char>>,
    trail: Seq<Seq<char>>,
)
    requires
        field_object(objects, dangling) is None,
    ensures
        get_build_phases(objects, before + seq![dangling] + after, trail) == get_build_phases(
            objects,
            before + after,
            trail,
        ),
{
    lemma_get_build_phases_of_joined(objects, before + seq![dangling], after, trail);
    lemma_get_build_phases_of_joined(objects, before, seq![dangling], trail);
    lemma_get_build_phases_of_joined(objects, before, after, trail);
    assert(seq![dangling].drop_last() =~= Seq::<Seq<char>>::empty());
    assert(get_build_phases(objects, seq![dangling], trail) =~= Seq::empty()) by {
        reveal_with_fuel(get_build_phases, 2);
    }
    assert(get_build_phases(objects, before, trail) + Seq::empty() =~= get_build_phases(
        objects,
        before,
        trail,
    ));
}

/// Builds the build phase that `fields` describe.
pub fn build_phase_from<'a>(
    objects: &'a PBXObjectCollection,
    id: &str,
    fields: &'a PBXHashMap,
    trail: Option<&Trail>,
) -> (r: Result<PBXBuildPhase<'a>, PBXError>)
    ensures
        match r {
            Ok(x) => build_phase_of(objects@, id@, fields@, trail_view(trail)) == Ok::<
                PBXBuildPhaseView,
                PBXErrorView,
            >(build_phase_view(x)),
            Err(e) => build_phase_of(objects@, id@, fields@, trail_view(trail)) == Err::<
                PBXBuildPhaseView,
                PBXErrorView,
            >(e@),
        },
    decreases objects@.len() - trail_view(trail).len(), 2int, 0int,
{
    let kind = match within(kind_of_object(fields), id)? {
        PBXObjectKind::PBXBuildPhase(k) => k,
        _ => return Err(PBXError::KindMismatch { id: String::from_str(id) }),
    };
    let build_action_mask = fields.number_or("buildActionMask", 2147483647);
    let files = build_files_at(objects, &fields.ids("files"), trail);
    let input_file_list_paths = fields.texts("inputFileListPaths");
    let output_file_list_paths = fields.texts("outputFileListPaths");
    let run_only_for_deployment_postprocessing = fields.flag_or(
        "runOnlyForDeploymentPostprocessing",
        false,
    );
    let inner = if kind.is_run_script() {
        Some(within(shell_script_from(fields), id)?)
    } else {
        None
    };
    Ok(PBXBuildPhase {
        id: String::from_str(id),
        build_action_mask,
        files,
        input_file_list_paths,
        output_file_list_paths,
        run_only_for_deployment_postprocessing,
        kind,
        inner,
    })
}

/// Follows the reference `id` to a build phase.
pub fn build_phase_at<'a>(
    objects: &'a PBXObjectCollection,
    id: &str,
    trail: Option<&Trail>,
) -> (r: Option<PBXBuildPhase<'a>>)
    ensures
        opt_build_phase_view(r) == get_build_phase(objects@, id@, trail_view(trail)),
    decreases objects@.len() - trail_view(trail).len(), 0int, 0int,
{
    if trail_reaches(trail, objects.len()) || trail_has(trail, id) {
        return None;
    }
    match objects.object(id) {
        None => None,
        Some(fields) => {
            let step = Trail { id, rest: trail };
            match build_phase_from(objects, id, fields, Some(&step)) {
                Ok(x) => Some(x),
                Err(_) => None,
            }
        },
    }
}

/// Follows the references `ids`, and leaves out those that lead to nothing.
pub fn build_phases_at<'a>(
    objects: &'a PBXObjectCollection,
    ids: &Vec<String>,
    trail: Option<&Trail>,
) -> (r: Vec<PBXBuildPhase<'a>>)
    ensures
        build_phases_view(r@) == get_build_phases(objects@, texts_view(ids@), trail_view(trail)),
    decreases objects@.len() - trail_view(trail).len(), 1int, ids@.len(),
{
    let ghost all = texts_view(ids@);
    let mut out: Vec<PBXBuildPhase<'a>> = Vec::new();
    let mut i: usize = 0;
    assert(build_phases_view(out@) =~= Seq::empty());
    assert(all.take(0) =~= Seq::empty());
    while i < ids.len()
        invariant
            i <= ids.len(),
            all == texts_view(ids@),
            build_phases_view(out@) == get_build_phases(
                objects@,
                all.take(i as int),
                trail_view(trail),
            ),
        decreases ids.len() - i,
    {
        assert(all.take(i + 1).drop_last() =~= all.take(i as int));
        assert(all.take(i + 1).last() == ids@[i as int]@);
        let ghost before = build_phases_view(out@);
        match build_phase_at(objects, ids[i].as_str(), trail) {
            Some(x) => {
                out.push(x);
                assert(build_phases_view(out@) =~= before.push(build_phase_view(x)));
            },
            None => {},
        }
        i += 1;
    }
    assert(all.take(ids.len() as int) =~= all);
    out
}

impl<'a> AsPBXObject<'a> for PBXBuildPhase<'a> {
    open spec fn described_by(
        objects: PBXHashMapView,
        id: Seq<char>,
        fields: PBXHashMapView,
    ) -> Result<PBXBuildPhaseView, PBXErrorView> {
        build_phase_of(objects, id, fields, start_trail(objects, id))
    }

    /// The build phase that the fields `value` of the object `id` describe,
    /// with what it refers to taken from `objects`. Fails when the object is
    /// of another kind or lacks a field that it must have.
    fn as_pbx_object(
        id: String,
        value: &'a PBXHashMap,
        objects: &'a PBXObjectCollection,
    ) -> (r: Result<PBXBuildPhase<'a>, PBXError>) {
        if objects.0.contains_key(id.as_str()) {
            let step = Trail { id: id.as_str(), rest: None };
            proof {
                reveal_with_fuel(trail_view, 2);
                assert(trail_view(Some(&step)) =~= seq![id@]);
            }
            build_phase_from(objects, id.as_str(), value, Some(&step))
        } else {
            build_phase_from(objects, id.as_str(), value, None)
        }
    }
}

impl<'a> PBXBuildPhase<'a> {
    /// Whether this is a phase of the `Sources` kind.
    pub fn is_sources(&self) -> (r: bool)
        ensures
            r == (self.kind == PBXBuildPhaseKind::Sources),
    {
        self.kind.is_sources()
    }

    /// Whether this is a phase of the `Frameworks` kind.
    pub fn is_frameworks(&self) -> (r: bool)
        ensures
            r == (self.kind == PBXBuildPhaseKind::Frameworks),
    {
        self.kind.is_frameworks()
    }

    /// Whether this is a phase of the `Resources` kind.
    pub fn is_resources(&self) -> (r: bool)
        ensures
            r == (self.kind == PBXBuildPhaseKind::Resources),
    {
        self.kind.is_resources()
    }

    /// Whether this is a phase of the `CopyFiles` kind.
    pub fn is_copy_files(&self) -> (r: bool)
        ensures
            r == (self.kind == PBXBuildPhaseKind::CopyFiles),
    {
        self.kind.is_copy_files()
    }

    /// Whether this is a phase of the `RunScript` kind.
    pub fn is_run_script(&self) -> (r: bool)
        ensures
            r == (self.kind == PBXBuildPhaseKind::RunScript),
    {
        self.kind.is_run_script()
    }

    /// Whether this is a phase of the `Headers` kind.
    pub fn is_headers(&self) -> (r: bool)
        ensures
            r == (self.kind == PBXBuildPhaseKind::Headers),
    {
        self.kind.is_headers()
    }

    /// Whether this is a phase of the `CarbonResources` kind.
    pub fn is_carbon_resources(&self) -> (r: bool)
        ensures
            r == (self.kind == PBXBuildPhaseKind::CarbonResources),
    {
        self.kind.is_carbon_resources()
    }
}

} // verus!
