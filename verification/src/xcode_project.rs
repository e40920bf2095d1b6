//! A project as it lies on disk: a folder `Name.xcodeproj` with its project
//! file, and the schemes that belong to it.
use vstd::prelude::*;
use crate::build_phase::{build_file_view, build_files_view, PBXBuildFileView};
use crate::error::{PBXError, PBXErrorView};
use crate::queries::all_build_files;
use crate::root::{PBXRootObject, root_of_text};
use crate::scheme::{file_name_of, file_stem, parent_directory, parent_of, stem_of, XCScheme};
use crate::text::texts_view;

verus! {

/// An Xcode project.
#[derive(Debug)]
pub struct XCodeProject {
    /// The name of the project: the name of its folder up to the first `.`.
    pub name: String,
    /// The directory that holds the folder of the project.
    pub root: String,
    /// The contents of the project file.
    pub pbxproj: PBXRootObject,
    /// The schemes.
    pub schemes: Vec<XCScheme>,
}

/// The name under which a build file goes: the path of its file, else the name
/// of its file; nothing when it has no file, or a file with neither.
pub open spec fn build_file_name(file: PBXBuildFileView) -> Option<Seq<char>> {
    match file.file {
        Some(reference) => match reference.path {
            Some(path) => Some(path),
            None => reference.name,
        },
        None => None,
    }
}

/// The names of the first `n` of `files`, in order: a build file without a
/// name is left out.
pub open spec fn build_file_names_upto(files: Seq<PBXBuildFileView>, n: int) -> Seq<Seq<char>>
    decreases n,
{
    if n <= 0 || n > files.len() {
        Seq::empty()
    } else {
        match build_file_name(files[n - 1]) {
            Some(name) => build_file_names_upto(files, n - 1).push(name),
            None => build_file_names_upto(files, n - 1),
        }
    }
}

impl XCodeProject {
    /// The project in the folder `xcodeproj_folder`, whose project file holds
    /// the text `content`, with the schemes `schemes`. The name is the stem of
    /// the name of the folder, and the root the directory that holds the
    /// folder. Fails as [`PBXRootObject::try_from_str`] does.
    pub fn from_parts(
        xcodeproj_folder: &str,
        content: &str,
        schemes: Vec<XCScheme>,
    ) -> (r: Result<XCodeProject, PBXError>)
        ensures
            match r {
                Ok(project) => {
                    &&& root_of_text(content@) == Ok::<_, PBXErrorView>(project.pbxproj@)
                    &&& project.name@ == stem_of(file_name_of(xcodeproj_folder@))
                    &&& project.root@ == parent_of(xcodeproj_folder@)
                    &&& project.schemes == schemes
                },
                Err(e) => root_of_text(content@) == Err::<crate::root::PBXRootObjectView, _>(e@),
            },
    {
        let pbxproj = PBXRootObject::try_from_str(content)?;
        Ok(
            XCodeProject {
                name: file_stem(xcodeproj_folder),
                root: parent_directory(xcodeproj_folder),
                pbxproj,
                schemes,
            },
        )
    }

    /// The name of the project.
    pub fn name(&self) -> (r: &str)
        ensures
            r@ == self.name@,
    {
        self.name.as_str()
    }

    /// The directory that holds the folder of the project.
    pub fn root(&self) -> (r: &String)
        ensures
            *r == self.root,
    {
        &self.root
    }

    /// The contents of the project file.
    pub fn pbxproj(&self) -> (r: &PBXRootObject)
        ensures
            *r == self.pbxproj,
    {
        &self.pbxproj
    }

    /// The schemes.
    pub fn schemes(&self) -> (r: &Vec<XCScheme>)
        ensures
            *r == self.schemes,
    {
        &self.schemes
    }

    /// The names of the build files of all targets, in the order of the
    /// collection: of each build file the path of its file, else its name.
    pub fn build_file_names(&self) -> (r: Vec<String>)
        ensures
            texts_view(r@) == build_file_names_upto(
                all_build_files(self.pbxproj@.objects),
                all_build_files(self.pbxproj@.objects).len() as int,
            ),
    {
        let files = self.pbxproj.objects.build_files();
        let ghost all = all_build_files(self.pbxproj@.objects);
        let mut out: Vec<String> = Vec::new();
        let mut i: usize = 0;
        assert(texts_view(out@) =~= Seq::empty());
        while i < files.len()
            invariant
                i <= files.len(),
                all == all_build_files(self.pbxproj@.objects),
                build_files_view(files@) == all,
                texts_view(out@) == build_file_names_upto(all, i as int),
            decreases files.len() - i,
        {
            assert(all[i as int] == build_file_view(files@[i as int]));
            let ghost before = texts_view(out@);
            match &files[i].file {
                Some(reference) => {
                    match &reference.path {
                        Some(path) => {
                            out.push(path.clone());
                            assert(texts_view(out@) =~= before.push(path@));
                        },
                        None => match &reference.name {
                            Some(name) => {
                                out.push(name.clone());
                                assert(texts_view(out@) =~= before.push(name@));
                            },
                            None => {},
                        },
                    }
                },
                None => {},
            }
            i += 1;
        }
        out
    }
}

} // verus!
