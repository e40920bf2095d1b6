//! File references and groups.
use vstd::prelude::*;
use crate::collection::{
    AsPBXObject, can_follow, kind_of_object, object_kind, PBXObjectCollection, start_trail, Trail,
    trail_has, trail_reaches, trail_view,
};
use crate::error::{error_within, PBXError, PBXErrorView, within};
use crate::kind::{PBXFSReferenceKind, PBXObjectKind, PBXObjectKindView};
use crate::lookup::built;
use crate::source_tree::{PBXSourceTree, PBXSourceTreeView, source_tree_of};
use crate::text::{opt_int, opt_text, same_opt_text, texts_view};
use crate::value::{
    field_flag, field_ids, field_number, field_object, field_string, lemma_field_index, PBXHashMap,
    PBXHashMapView,
};

verus! {

/// A file reference or a group: `PBXFileReference`, `PBXGroup`, `PBXVariantGroup` or
/// `XCVersionGroup`.
#[derive(Debug)]
pub struct PBXFSReference {
    /// The identifier of the object.
    pub id: String,
    /// What the path is relative to.
    pub source_tree: PBXSourceTree,
    /// The path.
    pub path: Option<String>,
    /// The name.
    pub name: Option<String>,
    /// Whether the element is indexed.
    pub include_in_index: Option<bool>,
    /// Whether tabs are used.
    pub uses_tabs: Option<bool>,
    /// The width of an indent.
    pub indent_width: Option<isize>,
    /// The width of a tab.
    pub tab_width: Option<isize>,
    /// Whether lines are wrapped.
    pub wraps_lines: Option<bool>,
    /// Which of the four kinds this is.
    pub kind: PBXFSReferenceKind,
    /// The text encoding of the file (files only).
    pub file_encoding: Option<isize>,
    /// The file type that the user set (files only).
    pub explicit_file_type: Option<String>,
    /// The file type that was derived from the name (files only).
    pub last_known_file_type: Option<String>,
    /// The line ending of the file (files only).
    pub line_ending: Option<isize>,
    /// The legacy identifier of the programming language (files only).
    pub language_specification_identifier: Option<String>,
    /// The identifier of the programming language (files only).
    pub xc_language_specification_identifier: Option<String>,
    /// The identifier of the structure of a property list (files only).
    pub plist_structure_definition_identifier: Option<String>,
    /// The identifier of the current version (version groups only).
    pub current_version_reference: Option<String>,
    /// The type of the version group (version groups only).
    pub version_group_type: Option<String>,
    /// The children, resolved (groups only).
    pub children: Vec<PBXFSReference>,
}

/// The mathematical value of a [`PBXFSReference`].
pub struct PBXFSReferenceView {
    pub id: Seq<char>,
    pub source_tree: PBXSourceTreeView,
    pub path: Option<Seq<char>>,
    pub name: Option<Seq<char>>,
    pub include_in_index: Option<bool>,
    pub uses_tabs: Option<bool>,
    pub indent_width: Option<int>,
    pub tab_width: Option<int>,
    pub wraps_lines: Option<bool>,
    pub kind: PBXFSReferenceKind,
    pub file_encoding: Option<int>,
    pub explicit_file_type: Option<Seq<char>>,
    pub last_known_file_type: Option<Seq<char>>,
    pub line_ending: Option<int>,
    pub language_specification_identifier: Option<Seq<char>>,
    pub xc_language_specification_identifier: Option<Seq<char>>,
    pub plist_structure_definition_identifier: Option<Seq<char>>,
    pub current_version_reference: Option<Seq<char>>,
    pub version_group_type: Option<Seq<char>>,
    pub children: Seq<PBXFSReferenceView>,
}

/// The mathematical value of `x`.
pub open spec fn fs_reference_view(x: PBXFSReference) -> PBXFSReferenceView
    decreases x,
{
    PBXFSReferenceView {
        id: x.id@,
        source_tree: x.source_tree@,
        path: opt_text(x.path),
        name: opt_text(x.name),
        include_in_index: x.include_in_index,
        uses_tabs: x.uses_tabs,
        indent_width: opt_int(x.indent_width),
        tab_width: opt_int(x.tab_width),
        wraps_lines: x.wraps_lines,
        kind: x.kind,
        file_encoding: opt_int(x.file_encoding),
        explicit_file_type: opt_text(x.explicit_file_type),
        last_known_file_type: opt_text(x.last_known_file_type),
        line_ending: opt_int(x.line_ending),
        language_specification_identifier: opt_text(x.language_specification_identifier),
        xc_language_specification_identifier: opt_text(x.xc_language_specification_identifier),
        plist_structure_definition_identifier: opt_text(x.plist_structure_definition_identifier),
        current_version_reference: opt_text(x.current_version_reference),
        version_group_type: opt_text(x.version_group_type),
        children: fs_references_view(x.children@),
    }
}

/// The mathematical values of a list.
pub open spec fn fs_references_view(s: Seq<PBXFSReference>) -> Seq<PBXFSReferenceView>
    decreases s,
{
    Seq::new(
        s.len(),
        |i: int|
            if 0 <= i < s.len() {
                fs_reference_view(s[i])
            } else {
                arbitrary()
            },
    )
}

/// The mathematical value of what may be absent.
pub open spec fn opt_fs_reference_view(o: Option<PBXFSReference>) -> Option<PBXFSReferenceView>
    decreases o,
{
    match o {
        Some(x) => Some(fs_reference_view(x)),
        None => None,
    }
}

impl View for PBXFSReference {
    type V = PBXFSReferenceView;

    open spec fn view(&self) -> PBXFSReferenceView {
        fs_reference_view(*self)
    }
}

/// The file reference or group that the fields `fields` of the object `id` describe,
/// built while the objects on `trail` are being built, this one among them.
/// The kind of the object is tested first, then the fields that must be
/// there, in the order of the fields of the result: the first that fails
/// gives the error.
pub open spec fn fs_reference_of(
    objects: PBXHashMapView,
    id: Seq<char>,
    fields: PBXHashMapView,
    trail: Seq<Seq<char>>,
) -> Result<PBXFSReferenceView, PBXErrorView>
    decreases objects.len() - trail.len(), 2int, 0int,
{
    match object_kind(fields) {
        Err(e) => Err(error_within(e, id)),
        Ok(PBXObjectKindView::PBXFSReference(kind)) => {
            Ok(PBXFSReferenceView {
                id,
                source_tree: match field_string(fields, "sourceTree"@) {
                    Some(s) => source_tree_of(s),
                    None => PBXSourceTreeView::Unspecified,
                },
                path: field_string(fields, "path"@),
                name: field_string(fields, "name"@),
                include_in_index: field_flag(fields, "includeInIndex"@),
                uses_tabs: field_flag(fields, "usesTabs"@),
                indent_width: field_number(fields, "indentWidth"@),
                tab_width: field_number(fields, "tabWidth"@),
                wraps_lines: field_flag(fields, "wrapsLines"@),
                kind,
                file_encoding: if kind == PBXFSReferenceKind::File {
                    field_number(fields, "fileEncoding"@)
                } else {
                    None
                },
                explicit_file_type: if kind == PBXFSReferenceKind::File {
                    field_string(fields, "explicitFileType"@)
                } else {
                    None
                },
                last_known_file_type: if kind == PBXFSReferenceKind::File {
                    field_string(fields, "lastKnownFileType"@)
                } else {
                    None
                },
                line_ending: if kind == PBXFSReferenceKind::File {
                    field_number(fields, "lineEnding"@)
                } else {
                    None
                },
                language_specification_identifier: if kind == PBXFSReferenceKind::File {
                    field_string(fields, "languageSpecificationIdentifier"@)
                } else {
                    None
                },
                xc_language_specification_identifier: if kind == PBXFSReferenceKind::File {
                    field_string(fields, "xcLanguageSpecificationIdentifier"@)
                } else {
                    None
                },
                plist_structure_definition_identifier: if kind == PBXFSReferenceKind::File {
                    field_string(fields, "plistStructureDefinitionIdentifier"@)
                } else {
                    None
                },
                current_version_reference: if kind == PBXFSReferenceKind::VersionGroup {
                    field_string(fields, "currentVersion"@)
                } else {
                    None
                },
                version_group_type: if kind == PBXFSReferenceKind::VersionGroup {
                    field_string(fields, "versionGroupType"@)
                } else {
                    None
                },
                children: if kind.spec_is_group() {
                    get_fs_references(objects, field_ids(fields, "children"@), trail)
                } else {
                    Seq::empty()
                },
            })
        },
        Ok(_) => Err(PBXErrorView::KindMismatch { id }),
    }
}

/// The file reference or group that the reference `id` leads to from the trail
/// `trail`: nothing when the reference is not followed, when it dangles, or
/// when the object cannot be built.
pub open spec fn get_fs_reference(
    objects: PBXHashMapView,
    id: Seq<char>,
    trail: Seq<Seq<char>>,
) -> Option<PBXFSReferenceView>
    decreases objects.len() - trail.len(), 0int, 0int,
{
    if !can_follow(objects, id, trail) {
        None
    } else {
        match field_object(objects, id) {
            None => None,
            Some(fields) => match fs_reference_of(objects, id, fields, trail.push(id)) {
                Ok(x) => Some(x),
                Err(_) => None,
            },
        }
    }
}

/// What the references `ids` lead to, in order: a reference that leads to
/// nothing is left out.
pub open spec fn get_fs_references(
    objects: PBXHashMapView,
    ids: Seq<Seq<char>>,
    trail: Seq<Seq<char>>,
) -> Seq<PBXFSReferenceView>
    decreases objects.len() - trail.len(), 1int, ids.len(),
{
    if ids.len() == 0 {
        Seq::empty()
    } else {
        match get_fs_reference(objects, ids.last(), trail) {
            Some(x) => get_fs_references(objects, ids.drop_last(), trail).push(x),
            None => get_fs_references(objects, ids.drop_last(), trail),
        }
    }
}

/// Asked for by its type, a file reference or a group is what the reference to it leads to
/// from the empty trail.
pub proof fn lemma_built_fs_reference(objects: PBXHashMapView, id: Seq<char>)
    ensures
        built::<PBXFSReference>(objects, id) == get_fs_reference(objects, id, Seq::empty()),
{
    lemma_field_index(objects, id);
    assert(Seq::<Seq<char>>::empty().push(id) =~= seq![id]);
}

/// What the references of two lists lead to, one list after the other, is what
/// the references of the two lists joined lead to.
pub proof fn lemma_get_fs_references_of_joined(
    objects: PBXHashMapView,
    a: Seq<Seq<char>>,
    b: Seq<Seq<char>>,
    trail: Seq<Seq<char>>,
)
    ensures
        get_fs_references(objects, a + b, trail) == get_fs_references(objects, a, trail) + get_fs_references(
            objects,
            b,
            trail,
        ),
    decreases b.len(),
{
    if b.len() == 0 {
        assert(a + b =~= a);
        assert(get_fs_references(objects, a, trail) + get_fs_references(objects, b, trail)
            =~= get_fs_references(objects, a, trail));
    } else {
        lemma_get_fs_references_of_joined(objects, a, b.drop_last(), trail);
        assert((a + b).drop_last() =~= a + b.drop_last());
        assert((a + b).last() == b.last());
        match get_fs_reference(objects, b.last(), trail) {
            Some(x) => {
                assert((get_fs_references(objects, a, trail) + get_fs_references(
                    objects,
                    b.drop_last(),
                    trail,
                )).push(x) =~= get_fs_references(objects, a, trail) + get_fs_references(
                    objects,
                    b.drop_last(),
                    trail,
                ).push(x));
            },
            None => {},
        }
    }
}

/// A dangling reference in a list of references is passed over: the list
/// leads to what it leads to without it.
pub proof fn lemma_get_fs_references_skips_dangling(
    objects: PBXHashMapView,
    before: Seq<Seq<char>>,
    dangling: Seq<char>,
    after: Seq<Seq<char>>,
    trail: Seq<Seq<char>>,
)
    requires
        field_object(objects, dangling) is None,
    ensures
        get_fs_references(objects, before + seq![dangling] + after, trail) == get_fs_references(
            objects,
            before + after,
            trail,
        ),
{
    lemma_get_fs_references_of_joined(objects, before + seq![dangling], after, trail);
    lemma_get_fs_references_of_joined(objects, before, seq![dangling], trail);
    lemma_get_fs_references_of_joined(objects, before, after, trail);
    assert(seq![dangling].drop_last() =~= Seq::<Seq<char>>::empty());
    assert(get_fs_references(objects, seq![dangling], trail) =~= Seq::empty()) by {
        reveal_with_fuel(get_fs_references, 2);
    }
    assert(get_fs_references(objects, before, trail) + Seq::empty() =~= get_fs_references(
        objects,
        before,
        trail,
    ));
}

/// Builds the file reference or group that `fields` describe.
pub fn fs_reference_from(
    objects: &PBXObjectCollection,
    id: &str,
    fields: &PBXHashMap,
    trail: Option<&Trail>,
) -> (r: Result<PBXFSReference, PBXError>)
    ensures
        match r {
            Ok(x) => fs_reference_of(objects@, id@, fields@, trail_view(trail)) == Ok::<
                PBXFSReferenceView,
                PBXErrorView,
            >(fs_reference_view(x)),
            Err(e) => fs_reference_of(objects@, id@, fields@, trail_view(trail)) == Err::<
                PBXFSReferenceView,
                PBXErrorView,
            >(e@),
        },
    decreases objects@.len() - trail_view(trail).len(), 2int, 0int,
{
    let kind = match within(kind_of_object(fields), id)? {
        PBXObjectKind::PBXFSReference(k) => k,
        _ => return Err(PBXError::KindMismatch { id: String::from_str(id) }),
    };
    let source_tree = match fields.get_string("sourceTree") {
        Some(s) => PBXSourceTree::from_name(s.as_str()),
        None => PBXSourceTree::Unspecified,
    };
    let path = fields.text("path");
    let name = fields.text("name");
    let include_in_index = fields.flag("includeInIndex");
    let uses_tabs = fields.flag("usesTabs");
    let indent_width = fields.number("indentWidth");
    let tab_width = fields.number("tabWidth");
    let wraps_lines = fields.flag("wrapsLines");
    let file_encoding = if kind.is_file() {
        fields.number("fileEncoding")
    } else {
        None
    };
    let explicit_file_type = if kind.is_file() {
        fields.text("explicitFileType")
    } else {
        None
    };
    let last_known_file_type = if kind.is_file() {
        fields.text("lastKnownFileType")
    } else {
        None
    };
    let line_ending = if kind.is_file() {
        fields.number("lineEnding")
    } else {
        None
    };
    let language_specification_identifier = if kind.is_file() {
        fields.text("languageSpecificationIdentifier")
    } else {
        None
    };
    let xc_language_specification_identifier = if kind.is_file() {
        fields.text("xcLanguageSpecificationIdentifier")
    } else {
        None
    };
    let plist_structure_definition_identifier = if kind.is_file() {
        fields.text("plistStructureDefinitionIdentifier")
    } else {
        None
    };
    let current_version_reference = if kind.is_version_group() {
        fields.text("currentVersion")
    } else {
        None
    };
    let version_group_type = if kind.is_version_group() {
        fields.text("versionGroupType")
    } else {
        None
    };
    let children = if kind.is_group() {
        fs_references_at(objects, &fields.ids("children"), trail)
    } else {
        let none: Vec<PBXFSReference> = Vec::new();
        assert(fs_references_view(none@) =~= Seq::empty());
        none
    };
    Ok(PBXFSReference {
        id: String::from_str(id),
        source_tree,
        path,
        name,
        include_in_index,
        uses_tabs,
        indent_width,
        tab_width,
        wraps_lines,
        kind,
        file_encoding,
        explicit_file_type,
        last_known_file_type,
        line_ending,
        language_specification_identifier,
        xc_language_specification_identifier,
        plist_structure_definition_identifier,
        current_version_reference,
        version_group_type,
        children,
    })
}

/// Follows the reference `id` to a file reference or a group.
pub fn fs_reference_at(
    objects: &PBXObjectCollection,
    id: &str,
    trail: Option<&Trail>,
) -> (r: Option<PBXFSReference>)
    ensures
        opt_fs_reference_view(r) == get_fs_reference(objects@, id@, trail_view(trail)),
    decreases objects@.len() - trail_view(trail).len(), 0int, 0int,
{
    if trail_reaches(trail, objects.len()) || trail_has(trail, id) {
        return None;
    }
    match objects.object(id) {
        None => None,
        Some(fields) => {
            let step = Trail { id, rest: trail };
            match fs_reference_from(objects, id, fields, Some(&step)) {
                Ok(x) => Some(x),
                Err(_) => None,
            }
        },
    }
}

/// Follows the references `ids`, and leaves out those that lead to nothing.
pub fn fs_references_at(
    objects: &PBXObjectCollection,
    ids: &Vec<String>,
    trail: Option<&Trail>,
) -> (r: Vec<PBXFSReference>)
    ensures
        fs_references_view(r@) == get_fs_references(objects@, texts_view(ids@), trail_view(trail)),
    decreases objects@.len() - trail_view(trail).len(), 1int, ids@.len(),
{
    let ghost all = texts_view(ids@);
    let mut out: Vec<PBXFSReference> = Vec::new();
    let mut i: usize = 0;
    assert(fs_references_view(out@) =~= Seq::empty());
    assert(all.take(0) =~= Seq::empty());
    while i < ids.len()
        invariant
            i <= ids.len(),
            all == texts_view(ids@),
            fs_references_view(out@) == get_fs_references(
                objects@,
                all.take(i as int),
                trail_view(trail),
            ),
        decreases ids.len() - i,
    {
        assert(all.take(i + 1).drop_last() =~= all.take(i as int));
        assert(all.take(i + 1).last() == ids@[i as int]@);
        let ghost before = fs_references_view(out@);
        match fs_reference_at(objects, ids[i].as_str(), trail) {
            Some(x) => {
                out.push(x);
                assert(fs_references_view(out@) =~= before.push(fs_reference_view(x)));
            },
            None => {},
        }
        i += 1;
    }
    assert(all.take(ids.len() as int) =~= all);
    out
}

impl<'a> AsPBXObject<'a> for PBXFSReference {
    open spec fn described_by(
        objects: PBXHashMapView,
        id: Seq<char>,
        fields: PBXHashMapView,
    ) -> Result<PBXFSReferenceView, PBXErrorView> {
        fs_reference_of(objects, id, fields, start_trail(objects, id))
    }

    /// The file reference or group that the fields `value` of the object `id` describe,
    /// with what it refers to taken from `objects`. Fails when the object is
    /// of another kind or lacks a field that it must have.
    fn as_pbx_object(
        id: String,
        value: &'a PBXHashMap,
        objects: &'a PBXObjectCollection,
    ) -> (r: Result<PBXFSReference, PBXError>) {
        if objects.0.contains_key(id.as_str()) {
            let step = Trail { id: id.as_str(), rest: None };
            proof {
                reveal_with_fuel(trail_view, 2);
                assert(trail_view(Some(&step)) =~= seq![id@]);
            }
            fs_reference_from(objects, id.as_str(), value, Some(&step))
        } else {
            fs_reference_from(objects, id.as_str(), value, None)
        }
    }
}

/// Whether two file references or groups are the same: all fields are
/// compared but the children, which are those of the object that the
/// identifier names.
pub open spec fn fs_reference_same(a: PBXFSReferenceView, b: PBXFSReferenceView) -> bool {
    &&& a.id == b.id
    &&& a.source_tree == b.source_tree
    &&& a.path == b.path
    &&& a.name == b.name
    &&& a.include_in_index == b.include_in_index
    &&& a.uses_tabs == b.uses_tabs
    &&& a.indent_width == b.indent_width
    &&& a.tab_width == b.tab_width
    &&& a.wraps_lines == b.wraps_lines
    &&& a.kind == b.kind
    &&& a.file_encoding == b.file_encoding
    &&& a.explicit_file_type == b.explicit_file_type
    &&& a.last_known_file_type == b.last_known_file_type
    &&& a.line_ending == b.line_ending
    &&& a.language_specification_identifier == b.language_specification_identifier
    &&& a.xc_language_specification_identifier == b.xc_language_specification_identifier
    &&& a.plist_structure_definition_identifier == b.plist_structure_definition_identifier
    &&& a.current_version_reference == b.current_version_reference
    &&& a.version_group_type == b.version_group_type
}

impl Default for PBXFSReference {
    /// A plain group without an identifier, with nothing set.
    fn default() -> (r: Self)
        ensures
            r@ == (PBXFSReferenceView {
                id: Seq::empty(),
                source_tree: PBXSourceTreeView::Unspecified,
                path: None,
                name: None,
                include_in_index: None,
                uses_tabs: None,
                indent_width: None,
                tab_width: None,
                wraps_lines: None,
                kind: PBXFSReferenceKind::FileGroup,
                file_encoding: None,
                explicit_file_type: None,
                last_known_file_type: None,
                line_ending: None,
                language_specification_identifier: None,
                xc_language_specification_identifier: None,
                plist_structure_definition_identifier: None,
                current_version_reference: None,
                version_group_type: None,
                children: Seq::empty(),
            }),
    {
        let r = PBXFSReference {
            id: String::new(),
            source_tree: PBXSourceTree::Unspecified,
            path: None,
            name: None,
            include_in_index: None,
            uses_tabs: None,
            indent_width: None,
            tab_width: None,
            wraps_lines: None,
            kind: PBXFSReferenceKind::FileGroup,
            file_encoding: None,
            explicit_file_type: None,
            last_known_file_type: None,
            line_ending: None,
            language_specification_identifier: None,
            xc_language_specification_identifier: None,
            plist_structure_definition_identifier: None,
            current_version_reference: None,
            version_group_type: None,
            children: Vec::new(),
        };
        assert(fs_references_view(r.children@) =~= Seq::empty());
        r
    }
}

impl PartialEq for PBXFSReference {
    fn eq(&self, other: &Self) -> (r: bool) {
        self.id == other.id
            && self.source_tree == other.source_tree
            && same_opt_text(&self.path, &other.path)
            && same_opt_text(&self.name, &other.name)
            && self.include_in_index == other.include_in_index
            && self.uses_tabs == other.uses_tabs
            && self.indent_width == other.indent_width
            && self.tab_width == other.tab_width
            && self.wraps_lines == other.wraps_lines
            && self.kind == other.kind
            && self.file_encoding == other.file_encoding
            && same_opt_text(&self.explicit_file_type, &other.explicit_file_type)
            && same_opt_text(&self.last_known_file_type, &other.last_known_file_type)
            && self.line_ending == other.line_ending
            && same_opt_text(
                &self.language_specification_identifier,
                &other.language_specification_identifier,
            )
            && same_opt_text(
                &self.xc_language_specification_identifier,
                &other.xc_language_specification_identifier,
            )
            && same_opt_text(
                &self.plist_structure_definition_identifier,
                &other.plist_structure_definition_identifier,
            )
            && same_opt_text(&self.current_version_reference, &other.current_version_reference)
            && same_opt_text(&self.version_group_type, &other.version_group_type)
    }
}

impl vstd::std_specs::cmp::PartialEqSpecImpl for PBXFSReference {
    open spec fn obeys_eq_spec() -> bool {
        true
    }

    open spec fn eq_spec(&self, other: &Self) -> bool {
        fs_reference_same(self@, other@)
    }
}

impl Eq for PBXFSReference {

}

impl PBXFSReference {
    /// Whether this is a group of any kind.
    pub fn is_group(&self) -> (r: bool)
        ensures
            r == self.kind.spec_is_group(),
    {
        self.kind.is_group()
    }

    /// Whether this is a plain group.
    pub fn is_file_group(&self) -> (r: bool)
        ensures
            r == (self.kind == PBXFSReferenceKind::FileGroup),
    {
        self.kind.is_file_group()
    }

    /// Whether this is a version group.
    pub fn is_version_group(&self) -> (r: bool)
        ensures
            r == (self.kind == PBXFSReferenceKind::VersionGroup),
    {
        self.kind.is_version_group()
    }

    /// Whether this is a variant group.
    pub fn is_varient_group(&self) -> (r: bool)
        ensures
            r == (self.kind == PBXFSReferenceKind::VariantGroup),
    {
        self.kind.is_variant_group()
    }

    /// Whether this is a file.
    pub fn is_file(&self) -> (r: bool)
        ensures
            r == (self.kind == PBXFSReferenceKind::File),
    {
        self.kind.is_file()
    }

    /// What the path is relative to.
    pub fn source_tree(&self) -> (r: &PBXSourceTree)
        ensures
            *r == self.source_tree,
    {
        &self.source_tree
    }

    /// Which of the four kinds this is.
    pub fn kind(&self) -> (r: &PBXFSReferenceKind)
        ensures
            *r == self.kind,
    {
        &self.kind
    }

    /// The identifiers of the children, in order.
    pub fn children_references(&self) -> (r: Vec<&String>)
        ensures
            r@.len() == self.children@.len(),
            forall|i: int| 0 <= i < r@.len() ==> *r@[i] == #[trigger] self.children@[i].id,
    {
        let mut out: Vec<&String> = Vec::new();
        let mut i: usize = 0;
        while i < self.children.len()
            invariant
                i <= self.children.len(),
                out@.len() == i,
                forall|j: int| 0 <= j < i ==> *out@[j] == #[trigger] self.children@[j].id,
            decreases self.children.len() - i,
        {
            out.push(&self.children[i].id);
            i += 1;
        }
        out
    }

    /// Sets what the path is relative to.
    pub fn set_source_tree(&mut self, source_tree: PBXSourceTree)
        ensures
            *final(self) == (PBXFSReference { source_tree, ..*old(self) }),
    {
        self.source_tree = source_tree;
    }

    /// Sets the kind.
    pub fn set_kind(&mut self, kind: PBXFSReferenceKind)
        ensures
            *final(self) == (PBXFSReference { kind, ..*old(self) }),
    {
        self.kind = kind;
    }

    /// The path.
    pub fn path(&self) -> (r: Option<&String>)
        ensures
            match r {
                Some(s) => self.path == Some(*s),
                None => self.path is None,
            },
    {
        match &self.path {
            Some(s) => Some(s),
            None => None,
        }
    }

    /// Sets the path.
    pub fn set_path(&mut self, path: Option<String>)
        ensures
            *final(self) == (PBXFSReference { path, ..*old(self) }),
    {
        self.path = path;
    }

    /// The name.
    pub fn name(&self) -> (r: Option<&String>)
        ensures
            match r {
                Some(s) => self.name == Some(*s),
                None => self.name is None,
            },
    {
        match &self.name {
            Some(s) => Some(s),
            None => None,
        }
    }

    /// Sets the name.
    pub fn set_name(&mut self, name: Option<String>)
        ensures
            *final(self) == (PBXFSReference { name, ..*old(self) }),
    {
        self.name = name;
    }

    /// Whether the element is indexed.
    pub fn include_in_index(&self) -> (r: Option<bool>)
        ensures
            r == self.include_in_index,
    {
        self.include_in_index
    }

    /// Sets whether the element is indexed.
    pub fn set_include_in_index(&mut self, include_in_index: Option<bool>)
        ensures
            *final(self) == (PBXFSReference { include_in_index, ..*old(self) }),
    {
        self.include_in_index = include_in_index;
    }

    /// Whether tabs are used.
    pub fn uses_tabs(&self) -> (r: Option<bool>)
        ensures
            r == self.uses_tabs,
    {
        self.uses_tabs
    }

    /// Sets whether tabs are used.
    pub fn set_uses_tabs(&mut self, uses_tabs: Option<bool>)
        ensures
            *final(self) == (PBXFSReference { uses_tabs, ..*old(self) }),
    {
        self.uses_tabs = uses_tabs;
    }

    /// The width of an indent.
    pub fn indent_width(&self) -> (r: Option<isize>)
        ensures
            r == self.indent_width,
    {
        self.indent_width
    }

    /// Sets the width of an indent.
    pub fn set_indent_width(&mut self, indent_width: Option<isize>)
        ensures
            *final(self) == (PBXFSReference { indent_width, ..*old(self) }),
    {
        self.indent_width = indent_width;
    }

    /// The width of a tab.
    pub fn tab_width(&self) -> (r: Option<isize>)
        ensures
            r == self.tab_width,
    {
        self.tab_width
    }

    /// Sets the width of a tab.
    pub fn set_tab_width(&mut self, tab_width: Option<isize>)
        ensures
            *final(self) == (PBXFSReference { tab_width, ..*old(self) }),
    {
        self.tab_width = tab_width;
    }

    /// Whether lines are wrapped.
    pub fn wraps_lines(&self) -> (r: Option<bool>)
        ensures
            r == self.wraps_lines,
    {
        self.wraps_lines
    }

    /// Sets whether lines are wrapped.
    pub fn set_wraps_lines(&mut self, wraps_lines: Option<bool>)
        ensures
            *final(self) == (PBXFSReference { wraps_lines, ..*old(self) }),
    {
        self.wraps_lines = wraps_lines;
    }

    /// The text encoding of the file (files only).
    pub fn file_encoding(&self) -> (r: Option<isize>)
        ensures
            r == self.file_encoding,
    {
        self.file_encoding
    }

    /// Sets the text encoding of the file.
    pub fn set_file_encoding(&mut self, file_encoding: Option<isize>)
        ensures
            *final(self) == (PBXFSReference { file_encoding, ..*old(self) }),
    {
        self.file_encoding = file_encoding;
    }

    /// The file type that the user set (files only).
    pub fn explicit_file_type(&self) -> (r: Option<&String>)
        ensures
            match r {
                Some(s) => self.explicit_file_type == Some(*s),
                None => self.explicit_file_type is None,
            },
    {
        match &self.explicit_file_type {
            Some(s) => Some(s),
            None => None,
        }
    }

    /// Sets the file type that the user set.
    pub fn set_explicit_file_type(&mut self, explicit_file_type: Option<String>)
        ensures
            *final(self) == (PBXFSReference { explicit_file_type, ..*old(self) }),
    {
        self.explicit_file_type = explicit_file_type;
    }

    /// The file type that was derived from the name (files only).
    pub fn last_known_file_type(&self) -> (r: Option<&String>)
        ensures
            match r {
                Some(s) => self.last_known_file_type == Some(*s),
                None => self.last_known_file_type is None,
            },
    {
        match &self.last_known_file_type {
            Some(s) => Some(s),
            None => None,
        }
    }

    /// Sets the file type that was derived from the name.
    pub fn set_last_known_file_type(&mut self, last_known_file_type: Option<String>)
        ensures
            *final(self) == (PBXFSReference { last_known_file_type, ..*old(self) }),
    {
        self.last_known_file_type = last_known_file_type;
    }

    /// The line ending of the file (files only).
    pub fn line_ending(&self) -> (r: Option<isize>)
        ensures
            r == self.line_ending,
    {
        self.line_ending
    }

    /// Sets the line ending of the file.
    pub fn set_line_ending(&mut self, line_ending: Option<isize>)
        ensures
            *final(self) == (PBXFSReference { line_ending, ..*old(self) }),
    {
        self.line_ending = line_ending;
    }

    /// The legacy identifier of the programming language (files only).
    pub fn language_specification_identifier(&self) -> (r: Option<&String>)
        ensures
            match r {
                Some(s) => self.language_specification_identifier == Some(*s),
                None => self.language_specification_identifier is None,
            },
    {
        match &self.language_specification_identifier {
            Some(s) => Some(s),
            None => None,
        }
    }

    /// Sets the legacy identifier of the programming language.
    pub fn set_language_specification_identifier(
        &mut self,
        language_specification_identifier: Option<String>,
    )
        ensures
            *final(self) == (PBXFSReference { language_specification_identifier, ..*old(self) }),
    {
        self.language_specification_identifier = language_specification_identifier;
    }

    /// The identifier of the programming language (files only).
    pub fn xc_language_specification_identifier(&self) -> (r: Option<&String>)
        ensures
            match r {
                Some(s) => self.xc_language_specification_identifier == Some(*s),
                None => self.xc_language_specification_identifier is None,
            },
    {
        match &self.xc_language_specification_identifier {
            Some(s) => Some(s),
            None => None,
        }
    }

    /// Sets the identifier of the programming language.
    pub fn set_xc_language_specification_identifier(
        &mut self,
        xc_language_specification_identifier: Option<String>,
    )
        ensures
            *final(self) == (PBXFSReference { xc_language_specification_identifier, ..*old(self) }),
    {
        self.xc_language_specification_identifier = xc_language_specification_identifier;
    }

    /// The identifier of the structure of a property list (files only).
    pub fn plist_structure_definition_identifier(&self) -> (r: Option<&String>)
        ensures
            match r {
                Some(s) => self.plist_structure_definition_identifier == Some(*s),
                None => self.plist_structure_definition_identifier is None,
            },
    {
        match &self.plist_structure_definition_identifier {
            Some(s) => Some(s),
            None => None,
        }
    }

    /// Sets the identifier of the structure of a property list.
    pub fn set_plist_structure_definition_identifier(
        &mut self,
        plist_structure_definition_identifier: Option<String>,
    )
        ensures
            *final(self) == (
                PBXFSReference { plist_structure_definition_identifier, ..*old(self) }
            ),
    {
        self.plist_structure_definition_identifier = plist_structure_definition_identifier;
    }

    /// The identifier of the current version (version groups only).
    pub fn current_version_reference(&self) -> (r: Option<&String>)
        ensures
            match r {
                Some(s) => self.current_version_reference == Some(*s),
                None => self.current_version_reference is None,
            },
    {
        match &self.current_version_reference {
            Some(s) => Some(s),
            None => None,
        }
    }

    /// Sets the identifier of the current version.
    pub fn set_current_version_reference(&mut self, current_version_reference: Option<String>)
        ensures
            *final(self) == (PBXFSReference { current_version_reference, ..*old(self) }),
    {
        self.current_version_reference = current_version_reference;
    }

    /// The type of the version group (version groups only).
    pub fn version_group_type(&self) -> (r: Option<&String>)
        ensures
            match r {
                Some(s) => self.version_group_type == Some(*s),
                None => self.version_group_type is None,
            },
    {
        match &self.version_group_type {
            Some(s) => Some(s),
            None => None,
        }
    }

    /// Sets the type of the version group.
    pub fn set_version_group_type(&mut self, version_group_type: Option<String>)
        ensures
            *final(self) == (PBXFSReference { version_group_type, ..*old(self) }),
    {
        self.version_group_type = version_group_type;
    }
}

} // verus!
