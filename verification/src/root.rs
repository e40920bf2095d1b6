//! The root of a project file: its versions, its classes, its objects, and
//! the identifier of the project among them.
use vstd::prelude::*;
use crate::collection::{collection_well_formed, PBXObjectCollection};
use crate::error::{PBXError, PBXErrorView, PBXValueKind};
use crate::fs_reference::{opt_fs_reference_view, PBXFSReference, PBXFSReferenceView};
use crate::grammar::parse_file;
use crate::parser::PBXProjectParser;
use crate::project::{opt_project_view, PBXProject, PBXProjectView, project_view, projects_view};
use crate::queries::all_projects;
use crate::text::same_text;
use crate::value::{
    field_error, field_number, field_object, field_string, fields_well_formed,
    find_value_in_objects, lemma_field_index, lemma_keys_unique_in_fields,
    lemma_without_field_other, PBXHashMap, PBXHashMapView, PBXValue, PBXValueView, value_kind,
};

verus! {

/// The contents of a `project.pbxproj` file.
#[derive(Debug)]
pub struct PBXRootObject {
    /// The archive version.
    pub archive_version: u8,
    /// The object version.
    pub object_version: u8,
    /// The classes; most files have none.
    pub classes: PBXHashMap,
    /// The objects of the file.
    pub objects: PBXObjectCollection,
    /// The identifier of the project object.
    pub root_object_reference: String,
}

/// The mathematical value of a [`PBXRootObject`].
pub struct PBXRootObjectView {
    pub archive_version: u8,
    pub object_version: u8,
    pub classes: PBXHashMapView,
    pub objects: PBXHashMapView,
    pub root_object_reference: Seq<char>,
}

impl View for PBXRootObject {
    type V = PBXRootObjectView;

    open spec fn view(&self) -> PBXRootObjectView {
        PBXRootObjectView {
            archive_version: self.archive_version,
            object_version: self.object_version,
            classes: self.classes@,
            objects: self.objects@,
            root_object_reference: self.root_object_reference@,
        }
    }
}

/// The version under the key `key` of `m`: a number from 0 to 255.
pub open spec fn version_of(m: PBXHashMapView, key: Seq<char>) -> Result<u8, PBXErrorView> {
    match field_number(m, key) {
        None => Err(field_error(m, key, PBXValueKind::Number)),
        Some(n) => if 0 <= n <= 255 {
            Ok(n as u8)
        } else {
            Err(PBXErrorView::OutOfRange { key })
        },
    }
}

/// The place of the first entry of `m`, from `from` on, whose value is no
/// object; `m.len()` when all are objects.
pub open spec fn first_non_object(m: PBXHashMapView, from: int) -> int
    decreases m.len() - from,
{
    if from < 0 || from >= m.len() {
        m.len() as int
    } else if !(m[from].1 is Object) {
        from
    } else {
        first_non_object(m, from + 1)
    }
}

/// The root that the fields `m` of a file describe. `archiveVersion`,
/// `objectVersion`, `rootObject` and `objects` must be there, and are tested in
/// this order; a version must lie between 0 and 255. Every entry of `objects`
/// must be an object: the first that is none gives the error. The classes
/// are empty when `classes` is not there.
pub open spec fn root_of(m: PBXHashMapView) -> Result<PBXRootObjectView, PBXErrorView> {
    if version_of(m, "archiveVersion"@) is Err {
        Err(version_of(m, "archiveVersion"@)->Err_0)
    } else if version_of(m, "objectVersion"@) is Err {
        Err(version_of(m, "objectVersion"@)->Err_0)
    } else if field_string(m, "rootObject"@) is None {
        Err(field_error(m, "rootObject"@, PBXValueKind::String))
    } else if field_object(m, "objects"@) is None {
        Err(field_error(m, "objects"@, PBXValueKind::Object))
    } else {
        let objects = field_object(m, "objects"@).unwrap();
        let k = first_non_object(objects, 0);
        if 0 <= k < objects.len() {
            Err(
                PBXErrorView::TypeMismatch {
                    expected: PBXValueKind::Object,
                    actual: value_kind(objects[k].1),
                },
            )
        } else {
            Ok(
                PBXRootObjectView {
                    archive_version: version_of(m, "archiveVersion"@)->Ok_0,
                    object_version: version_of(m, "objectVersion"@)->Ok_0,
                    classes: match field_object(m, "classes"@) {
                        Some(classes) => classes,
                        None => Seq::empty(),
                    },
                    objects,
                    root_object_reference: field_string(m, "rootObject"@).unwrap(),
                },
            )
        }
    }
}

/// What [`first_non_object`] finds: the first entry that is no object, if
/// there is one.
pub proof fn lemma_first_non_object(m: PBXHashMapView, from: int)
    requires
        0 <= from <= m.len(),
    ensures
        from <= first_non_object(m, from) <= m.len(),
        first_non_object(m, from) < m.len() ==> !(m[first_non_object(m, from)].1 is Object),
        forall|j: int| from <= j < first_non_object(m, from) ==> (#[trigger] m[j]).1 is Object,
    decreases m.len() - from,
{
    if from < m.len() && m[from].1 is Object {
        lemma_first_non_object(m, from + 1);
    }
}

/// The objects of a root that was read from fields with different keys
/// throughout are well formed: every entry is an object, no identifier comes
/// twice, and no object has two fields with the same key. So are the classes.
pub proof fn lemma_root_keys_unique(m: PBXHashMapView)
    requires
        fields_well_formed(m),
    ensures
        root_of(m) matches Ok(root) ==> collection_well_formed(root.objects) && fields_well_formed(
            root.classes,
        ),
{
    lemma_keys_unique_in_fields(m);
    lemma_keys_unique_in_fields(Seq::empty());
    lemma_field_index(m, "objects"@);
    lemma_field_index(m, "classes"@);
    if field_object(m, "objects"@) is Some {
        lemma_first_non_object(field_object(m, "objects"@).unwrap(), 0);
    }
}

/// The root that the text `s` of a file describes.
pub open spec fn root_of_text(s: Seq<char>) -> Result<PBXRootObjectView, PBXErrorView> {
    match parse_file(s) {
        Ok(m) => root_of(m),
        Err(e) => Err(e),
    }
}

/// The first of `projects`, from `from` on, with the identifier `id`.
pub open spec fn project_with_id(
    projects: Seq<PBXProjectView>,
    id: Seq<char>,
    from: int,
) -> Option<PBXProjectView>
    decreases projects.len() - from,
{
    if from < 0 || from >= projects.len() {
        None
    } else if projects[from].id == id {
        Some(projects[from])
    } else {
        project_with_id(projects, id, from + 1)
    }
}

/// The project of a root: the first project of its objects whose identifier
/// is the root object reference.
pub open spec fn root_project_of(root: PBXRootObjectView) -> Option<PBXProjectView> {
    project_with_id(all_projects(root.objects), root.root_object_reference, 0)
}

/// The variant of the first value of `m` that is no object, if there is one.
fn variant_of_first_non_object(m: &PBXHashMap) -> (r: Option<PBXValueKind>)
    ensures
        match r {
            Some(kind) => 0 <= first_non_object(m@, 0) < m@.len() && kind == value_kind(
                m@[first_non_object(m@, 0)].1,
            ),
            None => first_non_object(m@, 0) == m@.len(),
        },
{
    let mut i: usize = 0;
    while i < m.entries.len()
        invariant
            i <= m.entries.len(),
            m@.len() == m.entries@.len(),
            first_non_object(m@, 0) == first_non_object(m@, i as int),
        decreases m.entries.len() - i,
    {
        assert(m@[i as int] == (m.entries@[i as int].0@, m.entries@[i as int].1@));
        match &m.entries[i].1 {
            PBXValue::Object(_) => {},
            other => {
                return Some(other.kind());
            },
        }
        i += 1;
    }
    None
}

impl PBXRootObject {
    /// A root with the given parts.
    pub fn new(
        archive_version: u8,
        object_version: u8,
        classes: PBXHashMap,
        objects: PBXObjectCollection,
        root_object_reference: String,
    ) -> (r: PBXRootObject)
        ensures
            r == (PBXRootObject {
                archive_version,
                object_version,
                classes,
                objects,
                root_object_reference,
            }),
    {
        PBXRootObject { archive_version, object_version, classes, objects, root_object_reference }
    }

    /// The root that the fields `map` of a file describe: see [`root_of`] for
    /// what must be there, and for the error that each lack gives.
    pub fn try_from_map(map: PBXHashMap) -> (r: Result<PBXRootObject, PBXError>)
        ensures
            match r {
                Ok(root) => root_of(map@) == Ok::<_, PBXErrorView>(root@),
                Err(e) => root_of(map@) == Err::<PBXRootObjectView, _>(e@),
            },
            r matches Ok(root) ==> forall|i: int|
                0 <= i < root@.objects.len() ==> (#[trigger] root@.objects[i]).1 is Object,
            r matches Ok(root) ==> (fields_well_formed(map@) ==> collection_well_formed(
                root@.objects,
            ) && fields_well_formed(root@.classes)),
    {
        proof {
            if field_object(map@, "objects"@) is Some {
                lemma_first_non_object(field_object(map@, "objects"@).unwrap(), 0);
            }
            if fields_well_formed(map@) {
                lemma_root_keys_unique(map@);
            }
        }
        let ghost m0 = map@;
        let mut map = map;
        let archive = map.try_remove_number("archiveVersion")?;
        let ghost m1 = map@;
        proof {
            reveal_strlit("archiveVersion");
            reveal_strlit("objectVersion");
            reveal_strlit("classes");
            reveal_strlit("rootObject");
            reveal_strlit("objects");
            assert("archiveVersion"@.len() == 14);
            assert("objectVersion"@.len() == 13);
            assert("classes"@.len() == 7);
            assert("rootObject"@.len() == 10);
            assert("objects"@.len() == 7);
            assert("classes"@[0] != "objects"@[0]);
            lemma_without_field_other(m0, "archiveVersion"@, "objectVersion"@);
            lemma_without_field_other(m0, "archiveVersion"@, "classes"@);
            lemma_without_field_other(m0, "archiveVersion"@, "rootObject"@);
            lemma_without_field_other(m0, "archiveVersion"@, "objects"@);
        }
        if archive < 0 || archive > 255 {
            return Err(PBXError::OutOfRange { key: String::from_str("archiveVersion") });
        }
        let object = map.try_remove_number("objectVersion")?;
        let ghost m2 = map@;
        proof {
            lemma_without_field_other(m1, "objectVersion"@, "classes"@);
            lemma_without_field_other(m1, "objectVersion"@, "rootObject"@);
            lemma_without_field_other(m1, "objectVersion"@, "objects"@);
        }
        if object < 0 || object > 255 {
            return Err(PBXError::OutOfRange { key: String::from_str("objectVersion") });
        }
        let classes = match map.remove_object("classes") {
            Some(classes) => classes,
            None => PBXHashMap::empty(),
        };
        let ghost m3 = map@;
        proof {
            lemma_without_field_other(m2, "classes"@, "rootObject"@);
            lemma_without_field_other(m2, "classes"@, "objects"@);
        }
        let root_object_reference = map.try_remove_string("rootObject")?;
        proof {
            lemma_without_field_other(m3, "rootObject"@, "objects"@);
        }
        let objects = map.try_remove_object("objects")?;
        match variant_of_first_non_object(&objects) {
            Some(actual) => {
                return Err(PBXError::TypeMismatch { expected: PBXValueKind::Object, actual });
            },
            None => {},
        }
        Ok(
            PBXRootObject {
                archive_version: archive as u8,
                object_version: object as u8,
                classes,
                objects: PBXObjectCollection(objects),
                root_object_reference,
            },
        )
    }

    /// The root that the text `content` of a file describes: a syntax error
    /// when `content` is not a project file, else as
    /// [`PBXRootObject::try_from_map`].
    pub fn try_from_str(content: &str) -> (r: Result<PBXRootObject, PBXError>)
        ensures
            match r {
                Ok(root) => root_of_text(content@) == Ok::<_, PBXErrorView>(root@)
                    && collection_well_formed(root@.objects) && fields_well_formed(root@.classes),
                Err(e) => root_of_text(content@) == Err::<PBXRootObjectView, _>(e@),
            },
    {
        let map = PBXProjectParser::try_from_str(content)?;
        proof {
            lemma_root_keys_unique(map@);
        }
        PBXRootObject::try_from_map(map)
    }

    /// The archive version.
    pub fn archive_version(&self) -> (r: u8)
        ensures
            r == self.archive_version,
    {
        self.archive_version
    }

    /// The object version.
    pub fn object_version(&self) -> (r: u8)
        ensures
            r == self.object_version,
    {
        self.object_version
    }

    /// The classes.
    pub fn classes(&self) -> (r: &PBXHashMap)
        ensures
            *r == self.classes,
    {
        &self.classes
    }

    /// The identifier of the project object.
    pub fn root_object_reference(&self) -> (r: &str)
        ensures
            r@ == self.root_object_reference@,
    {
        self.root_object_reference.as_str()
    }

    /// The objects.
    pub fn objects(&self) -> (r: &PBXObjectCollection)
        ensures
            *r == self.objects,
    {
        &self.objects
    }

    /// The objects, to change them.
    pub fn objects_mut(&mut self) -> (r: &mut PBXObjectCollection)
        ensures
            *r == old(self).objects,
            *final(self) == (PBXRootObject { objects: *final(r), ..*old(self) }),
    {
        &mut self.objects
    }

    /// The value of the first field with the key `key` that one of the objects
    /// has, itself or in an object among its values: the objects are gone
    /// through in order, and the fields of each as
    /// [`PBXHashMap::extract_value`] does.
    pub fn extract_value(&self, key: &str) -> (r: Option<&PBXValue>)
        ensures
            match r {
                Some(v) => find_value_in_objects(self@.objects, key@, 0) == Some(v@),
                None => find_value_in_objects(self@.objects, key@, 0) is None,
            },
    {
        self.objects.0.extract_value_in_objects(key)
    }

    /// As [`PBXRootObject::extract_value`], if the value found is a string.
    pub fn extract_string(&self, key: &str) -> (r: Option<&String>)
        ensures
            match r {
                Some(s) => find_value_in_objects(self@.objects, key@, 0) == Some(
                    PBXValueView::String(s@),
                ),
                None => !(find_value_in_objects(self@.objects, key@, 0) matches Some(
                    PBXValueView::String(_),
                )),
            },
    {
        match self.extract_value(key) {
            Some(v) => v.as_string(),
            None => None,
        }
    }

    /// The project: the first project of the objects whose identifier is the
    /// root object reference, if there is one.
    pub fn root_project<'a>(&'a self) -> (r: Option<PBXProject<'a>>)
        ensures
            opt_project_view(r) == root_project_of(self@),
    {
        let projects = self.objects.projects();
        let ghost all = projects@;
        for project in it: projects
            invariant
                it.seq() == all,
                projects_view(all) == all_projects(self@.objects),
                root_project_of(self@) == project_with_id(
                    all_projects(self@.objects),
                    self@.root_object_reference,
                    it.index(),
                ),
        {
            assert(projects_view(all)[it.index()] == project_view(project));
            if same_text(project.id.as_str(), self.root_object_reference.as_str()) {
                return Some(project);
            }
        }
        None
    }

    /// The main group of the project, if there is a project.
    pub fn root_group(&self) -> (r: Option<PBXFSReference>)
        ensures
            opt_fs_reference_view(r) == (match root_project_of(self@) {
                Some(project) => Some(project.main_group),
                None => None::<PBXFSReferenceView>,
            }),
    {
        match self.root_project() {
            Some(project) => Some(project.main_group),
            None => None,
        }
    }
}

} // verus!
