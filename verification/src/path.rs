//! Paths: where in the file system a file reference or a group lies.
//!
//! A path is a text whose parts are separated by `/`. The path of a reference
//! is resolved by its source tree. An absolute path is taken as it is. A path
//! relative to the source root is added to the source root. A path relative
//! to the group is added to the path of the group that holds the reference;
//! the main group of a project lies at the source root. Where a path is added
//! to another, its empty parts are left out.
use vstd::prelude::*;
use crate::collection::PBXObjectCollection;
use crate::error::{PBXError, PBXErrorView};
use crate::fs_reference::{
    fs_reference_same, fs_reference_view, fs_references_view, PBXFSReference, PBXFSReferenceView,
};
use crate::project::{PBXProjectView, project_view, projects_view};
use crate::queries::{all_groups, all_projects};
use crate::source_tree::{PBXSourceTree, PBXSourceTreeView};
use crate::text::{chars_of, text_of};
use crate::value::PBXHashMapView;

verus! {

/// The place of the first `/` of `path` at or after `from`, or the end of
/// `path`.
pub open spec fn part_end(path: Seq<char>, from: int) -> int
    decreases path.len() - from,
{
    if from < 0 || from >= path.len() {
        path.len() as int
    } else if path[from] == '/' {
        from
    } else {
        part_end(path, from + 1)
    }
}

/// `base` with the part `part` added: a `/` is set between the two unless
/// `base` is empty or ends with one. An empty part adds nothing, so that a
/// path does not change with a `/` more at its beginning, at its end, or
/// between two parts.
pub open spec fn push_part(base: Seq<char>, part: Seq<char>) -> Seq<char> {
    if part.len() == 0 {
        base
    } else if base.len() == 0 || base.last() == '/' {
        base + part
    } else {
        base.push('/') + part
    }
}

/// `base` with the parts of `path` from `from` on added one after the other.
pub open spec fn extend_path(base: Seq<char>, path: Seq<char>, from: int) -> Seq<char>
    decreases path.len() - from,
{
    if from < 0 || from > path.len() {
        base
    } else {
        let end = part_end(path, from);
        let next = push_part(base, path.subrange(from, end));
        if end >= path.len() || end < from {
            next
        } else {
            extend_path(next, path, end + 1)
        }
    }
}

/// `base` with all the parts of `path` added, or `base` itself when there is
/// no path.
pub open spec fn with_path(base: Seq<char>, path: Option<Seq<char>>) -> Seq<char> {
    match path {
        Some(p) => extend_path(base, p, 0),
        None => base,
    }
}

/// Whether `r` is the same as the main group of one of `projects`.
pub open spec fn is_main_group(projects: Seq<PBXProjectView>, r: PBXFSReferenceView) -> bool {
    exists|i: int| 0 <= i < projects.len() && fs_reference_same(#[trigger] projects[i].main_group, r)
}

/// Whether one of the children of `group` is the same as `r`.
pub open spec fn holds_child(group: PBXFSReferenceView, r: PBXFSReferenceView) -> bool {
    exists|j: int| 0 <= j < group.children.len() && fs_reference_same(#[trigger] group.children[j], r)
}

/// The place of the first of `groups`, from `from` on, that holds a child
/// which is the same as `r`; `groups.len()` when there is none.
pub open spec fn parent_index(
    groups: Seq<PBXFSReferenceView>,
    r: PBXFSReferenceView,
    from: int,
) -> int
    decreases groups.len() - from,
{
    if from < 0 || from >= groups.len() {
        groups.len() as int
    } else if holds_child(groups[from], r) {
        from
    } else {
        parent_index(groups, r, from + 1)
    }
}

/// The full path of `r` below the source root `root`, climbing at most `depth`
/// groups.
///
/// By the source tree of `r`:
/// - absolute: the path of `r`, which must be there;
/// - source root: `root` with the path of `r`, which must be there;
/// - group: if `r` is the same as the main group of a project, `root` with
///   the path of `r`; else the full path of the first group that holds a
///   child which is the same as `r`, with the path of `r`; an error when
///   there is no such group, or when `depth` groups were climbed already;
/// - any other: an error.
pub open spec fn full_path_of(
    objects: PBXHashMapView,
    r: PBXFSReferenceView,
    root: Seq<char>,
    depth: nat,
) -> Result<Seq<char>, PBXErrorView>
    decreases depth,
{
    match r.source_tree {
        PBXSourceTreeView::Absolute => match r.path {
            Some(p) => Ok(p),
            None => Err(PBXErrorView::MissingField { key: "path"@, object: Some(r.id) }),
        },
        PBXSourceTreeView::SourceRoot => match r.path {
            Some(p) => Ok(extend_path(root, p, 0)),
            None => Err(PBXErrorView::MissingField { key: "path"@, object: Some(r.id) }),
        },
        PBXSourceTreeView::Group => {
            let groups = all_groups(objects);
            let parent = parent_index(groups, r, 0);
            if is_main_group(all_projects(objects), r) {
                Ok(with_path(root, r.path))
            } else if parent >= groups.len() || parent < 0 || depth == 0 {
                Err(PBXErrorView::UnresolvedPath { id: r.id })
            } else {
                match full_path_of(objects, groups[parent], root, (depth - 1) as nat) {
                    Ok(base) => Ok(with_path(base, r.path)),
                    Err(e) => Err(e),
                }
            }
        },
        _ => Err(PBXErrorView::UnsupportedSourceTree { id: r.id }),
    }
}

/// The main group of a project, when it has no path of its own, lies at the
/// source root.
pub proof fn lemma_main_group_lies_at_root(
    objects: PBXHashMapView,
    r: PBXFSReferenceView,
    root: Seq<char>,
    depth: nat,
)
    requires
        r.source_tree == PBXSourceTreeView::Group,
        r.path is None,
        is_main_group(all_projects(objects), r),
    ensures
        full_path_of(objects, r, root, depth) == Ok::<Seq<char>, PBXErrorView>(root),
{
}

/// A path that holds no `/` is one part.
pub proof fn lemma_path_of_one_part(base: Seq<char>, path: Seq<char>)
    requires
        !path.contains('/'),
    ensures
        extend_path(base, path, 0) == push_part(base, path),
{
    lemma_part_end_without_slash(path, 0);
    assert(path.subrange(0, path.len() as int) =~= path);
}

/// In a path that holds no `/`, the part that begins anywhere runs to the
/// end.
pub proof fn lemma_part_end_without_slash(path: Seq<char>, from: int)
    requires
        !path.contains('/'),
        0 <= from <= path.len(),
    ensures
        part_end(path, from) == path.len(),
    decreases path.len() - from,
{
    if from < path.len() {
        assert(path[from] != '/');
        lemma_part_end_without_slash(path, from + 1);
    }
}

/// A reference that is relative to its group and is no main group lies in
/// the first group that holds it: its path is added to the path of that
/// group.
pub proof fn lemma_path_in_group(
    objects: PBXHashMapView,
    r: PBXFSReferenceView,
    root: Seq<char>,
    depth: nat,
    base: Seq<char>,
)
    requires
        r.source_tree == PBXSourceTreeView::Group,
        !is_main_group(all_projects(objects), r),
        0 <= parent_index(all_groups(objects), r, 0) < all_groups(objects).len(),
        depth > 0,
        full_path_of(
            objects,
            all_groups(objects)[parent_index(all_groups(objects), r, 0)],
            root,
            (depth - 1) as nat,
        ) == Ok::<Seq<char>, PBXErrorView>(base),
    ensures
        full_path_of(objects, r, root, depth) == Ok::<Seq<char>, PBXErrorView>(
            with_path(base, r.path),
        ),
{
}

/// A file in a group in the main group: when the main group has no path, and
/// the paths of the group and of the file are one part each, the file lies
/// at the source root, then the path of the group, then its own, with a `/`
/// between them.
pub proof fn lemma_path_of_file_in_group_in_main_group(
    objects: PBXHashMapView,
    file: PBXFSReferenceView,
    group: PBXFSReferenceView,
    main: PBXFSReferenceView,
    root: Seq<char>,
    depth: nat,
    group_path: Seq<char>,
    file_path: Seq<char>,
)
    requires
        depth >= 2,
        root.len() > 0 && root.last() != '/',
        group_path.len() > 0 && !group_path.contains('/'),
        file_path.len() > 0 && !file_path.contains('/'),
        main.source_tree == PBXSourceTreeView::Group && main.path is None,
        is_main_group(all_projects(objects), main),
        group.source_tree == PBXSourceTreeView::Group && group.path == Some(group_path),
        !is_main_group(all_projects(objects), group),
        0 <= parent_index(all_groups(objects), group, 0) < all_groups(objects).len(),
        all_groups(objects)[parent_index(all_groups(objects), group, 0)] == main,
        file.source_tree == PBXSourceTreeView::Group && file.path == Some(file_path),
        !is_main_group(all_projects(objects), file),
        0 <= parent_index(all_groups(objects), file, 0) < all_groups(objects).len(),
        all_groups(objects)[parent_index(all_groups(objects), file, 0)] == group,
    ensures
        full_path_of(objects, file, root, depth) == Ok::<Seq<char>, PBXErrorView>(
            root.push('/') + group_path + seq!['/'] + file_path,
        ),
{
    lemma_main_group_lies_at_root(objects, main, root, (depth - 2) as nat);
    lemma_path_of_one_part(root, group_path);
    lemma_path_in_group(objects, group, root, (depth - 1) as nat, root);
    let base = root.push('/') + group_path;
    assert(push_part(root, group_path) == base);
    assert(base.last() == group_path.last());
    assert(group_path.last() != '/') by {
        if group_path.last() == '/' {
            assert(group_path[group_path.len() - 1] == '/');
        }
    }
    lemma_path_of_one_part(base, file_path);
    lemma_path_in_group(objects, file, root, depth, base);
    assert(push_part(base, file_path) =~= root.push('/') + group_path + seq!['/'] + file_path);
}

/// Adds the parts of `path` from `from` on to `base`.
fn extend(base: Vec<char>, path: &Vec<char>) -> (r: Vec<char>)
    ensures
        r@ == extend_path(base@, path@, 0),
{
    let ghost base0 = base@;
    let mut out = base;
    let mut from: usize = 0;
    loop
        invariant
            from <= path.len(),
            base0 == base@,
            extend_path(base0, path@, 0) == extend_path(out@, path@, from as int),
        decreases path.len() - from,
    {
        let ghost before = out@;
        let mut end: usize = from;
        while end < path.len() && path[end] != '/'
            invariant
                from <= end <= path.len(),
                part_end(path@, from as int) == part_end(path@, end as int),
            decreases path.len() - end,
        {
            end += 1;
        }
        if end > from && out.len() > 0 && out[out.len() - 1] != '/' {
            out.push('/');
        }
        let ghost start = out@;
        let mut i: usize = from;
        while i < end
            invariant
                from <= i <= end <= path.len(),
                out@ == start + path@.subrange(from as int, i as int),
            decreases end - i,
        {
            out.push(path[i]);
            i += 1;
            assert(path@.subrange(from as int, i as int) =~= path@.subrange(from as int, i - 1).push(
                path@[i - 1],
            ));
            assert(out@ =~= start + path@.subrange(from as int, i as int));
        }
        assert(start + path@.subrange(from as int, from as int) =~= start);
        assert(out@ == push_part(before, path@.subrange(from as int, end as int)));
        assert(part_end(path@, end as int) == end);
        assert(extend_path(before, path@, from as int) == if end >= path.len() {
            out@
        } else {
            extend_path(out@, path@, end + 1)
        });
        if end >= path.len() {
            return out;
        }
        from = end + 1;
    }
}

/// A copy of `base` with the parts of `path` added, if there is a path.
fn extended(base: &Vec<char>, path: &Option<String>) -> (r: Vec<char>)
    ensures
        r@ == with_path(base@, crate::text::opt_text(*path)),
{
    let mut copy: Vec<char> = Vec::new();
    let mut i: usize = 0;
    while i < base.len()
        invariant
            i <= base.len(),
            copy@ == base@.take(i as int),
        decreases base.len() - i,
    {
        copy.push(base[i]);
        i += 1;
        assert(base@.take(i as int) =~= base@.take(i - 1).push(base@[i - 1]));
    }
    assert(base@.take(base.len() as int) =~= base@);
    match path {
        Some(p) => {
            let parts = chars_of(p.as_str());
            extend(copy, &parts)
        },
        None => copy,
    }
}

impl PBXFSReference {
    /// Whether this is the same as the main group of a project of `objects`.
    pub fn is_main_group_in(&self, objects: &PBXObjectCollection) -> (r: bool)
        ensures
            r == is_main_group(all_projects(objects@), self@),
    {
        let projects = objects.projects();
        let mut i: usize = 0;
        while i < projects.len()
            invariant
                i <= projects.len(),
                projects_view(projects@) == all_projects(objects@),
                forall|k: int|
                    0 <= k < i ==> !fs_reference_same(
                        #[trigger] all_projects(objects@)[k].main_group,
                        self@,
                    ),
            decreases projects.len() - i,
        {
            assert(projects_view(projects@)[i as int] == project_view(projects@[i as int]));
            if projects[i].main_group == *self {
                assert(fs_reference_same(all_projects(objects@)[i as int].main_group, self@));
                return true;
            }
            i += 1;
        }
        false
    }

    /// Whether one of the children is the same as `other`.
    pub fn has_child_like(&self, other: &PBXFSReference) -> (r: bool)
        ensures
            r == holds_child(self@, other@),
    {
        let mut j: usize = 0;
        assert(self@.children == fs_references_view(self.children@));
        while j < self.children.len()
            invariant
                j <= self.children.len(),
                self@.children == fs_references_view(self.children@),
                forall|k: int|
                    0 <= k < j ==> !fs_reference_same(#[trigger] self@.children[k], other@),
            decreases self.children.len() - j,
        {
            assert(self@.children[j as int] == fs_reference_view(self.children@[j as int]));
            if self.children[j] == *other {
                return true;
            }
            j += 1;
        }
        false
    }

    /// The full path of this reference below `source_root`, as characters,
    /// climbing at most `depth` groups.
    fn full_path_chars(
        &self,
        objects: &PBXObjectCollection,
        root: &Vec<char>,
        depth: usize,
    ) -> (r: Result<Vec<char>, PBXError>)
        ensures
            match r {
                Ok(p) => full_path_of(objects@, self@, root@, depth as nat) == Ok::<_, PBXErrorView>(
                    p@,
                ),
                Err(e) => full_path_of(objects@, self@, root@, depth as nat) == Err::<Seq<char>, _>(
                    e@,
                ),
            },
        decreases depth,
    {
        match &self.source_tree {
            PBXSourceTree::Absolute => match &self.path {
                Some(p) => Ok(chars_of(p.as_str())),
                None => Err(
                    PBXError::MissingField {
                        key: String::from_str("path"),
                        object: Some(self.id.clone()),
                    },
                ),
            },
            PBXSourceTree::SourceRoot => {
                if self.path.is_none() {
                    return Err(
                        PBXError::MissingField {
                            key: String::from_str("path"),
                            object: Some(self.id.clone()),
                        },
                    );
                }
                Ok(extended(root, &self.path))
            },
            PBXSourceTree::Group => {
                if self.is_main_group_in(objects) {
                    return Ok(extended(root, &self.path));
                }
                let groups = objects.groups();
                let mut i: usize = 0;
                while i < groups.len()
                    invariant
                        i <= groups.len(),
                        self@.source_tree == PBXSourceTreeView::Group,
                        !is_main_group(all_projects(objects@), self@),
                        fs_references_view(groups@) == all_groups(objects@),
                        parent_index(all_groups(objects@), self@, 0) == parent_index(
                            all_groups(objects@),
                            self@,
                            i as int,
                        ),
                    decreases groups.len() - i,
                {
                    assert(fs_references_view(groups@)[i as int] == fs_reference_view(
                        groups@[i as int],
                    ));
                    if groups[i].has_child_like(self) {
                        assert(holds_child(all_groups(objects@)[i as int], self@));
                        assert(parent_index(all_groups(objects@), self@, i as int) == i);
                        if depth == 0 {
                            return Err(PBXError::UnresolvedPath { id: self.id.clone() });
                        }
                        let base = groups[i].full_path_chars(objects, root, depth - 1)?;
                        return Ok(extended(&base, &self.path));
                    }
                    i += 1;
                }
                Err(PBXError::UnresolvedPath { id: self.id.clone() })
            },
            _ => Err(PBXError::UnsupportedSourceTree { id: self.id.clone() }),
        }
    }

    /// The full path of this reference below `source_root`: see
    /// [`full_path_of`]. As many groups are climbed as `objects` has entries.
    pub fn full_path(
        &self,
        objects: &PBXObjectCollection,
        source_root: &str,
    ) -> (r: Result<String, PBXError>)
        ensures
            match r {
                Ok(p) => full_path_of(objects@, self@, source_root@, objects@.len()) == Ok::<
                    _,
                    PBXErrorView,
                >(p@),
                Err(e) => full_path_of(objects@, self@, source_root@, objects@.len()) == Err::<
                    Seq<char>,
                    _,
                >(e@),
            },
    {
        let root = chars_of(source_root);
        let path = self.full_path_chars(objects, &root, objects.len())?;
        let text = text_of(&path, 0, path.len());
        assert(path@.subrange(0, path@.len() as int) =~= path@);
        Ok(text)
    }
}

} // verus!
