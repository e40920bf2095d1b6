//! Source trees: what the path of a file or group is relative to.
use vstd::prelude::*;
use crate::text::same_text;

verus! {

/// What the path of a reference is relative to.
#[derive(Debug)]
pub enum PBXSourceTree {
    /// No source tree.
    Unspecified,
    /// An absolute path.
    Absolute,
    /// A path relative to the group that holds the reference.
    Group,
    /// A path relative to the directory of the project.
    SourceRoot,
    /// A path relative to the directory of the build products.
    BuildProductsDir,
    /// A path relative to the SDK.
    SdkRoot,
    /// A path relative to the developer directory.
    DeveloperDir,
    /// A source tree that the user defined, by its name.
    Custom(String),
}

/// The mathematical value of a [`PBXSourceTree`].
pub enum PBXSourceTreeView {
    Unspecified,
    Absolute,
    Group,
    SourceRoot,
    BuildProductsDir,
    SdkRoot,
    DeveloperDir,
    Custom(Seq<char>),
}

impl View for PBXSourceTree {
    type V = PBXSourceTreeView;

    open spec fn view(&self) -> PBXSourceTreeView {
        match self {
            PBXSourceTree::Unspecified => PBXSourceTreeView::Unspecified,
            PBXSourceTree::Absolute => PBXSourceTreeView::Absolute,
            PBXSourceTree::Group => PBXSourceTreeView::Group,
            PBXSourceTree::SourceRoot => PBXSourceTreeView::SourceRoot,
            PBXSourceTree::BuildProductsDir => PBXSourceTreeView::BuildProductsDir,
            PBXSourceTree::SdkRoot => PBXSourceTreeView::SdkRoot,
            PBXSourceTree::DeveloperDir => PBXSourceTreeView::DeveloperDir,
            PBXSourceTree::Custom(s) => PBXSourceTreeView::Custom(s@),
        }
    }
}

/// The source tree that the text `s` names: a text that is not in the table
/// names a custom source tree.
pub open spec fn source_tree_of(s: Seq<char>) -> PBXSourceTreeView {
    if s == ""@ {
        PBXSourceTreeView::Unspecified
    } else if s == "<absolute>"@ {
        PBXSourceTreeView::Absolute
    } else if s == "<group>"@ {
        PBXSourceTreeView::Group
    } else if s == "SOURCE_ROOT"@ {
        PBXSourceTreeView::SourceRoot
    } else if s == "BUILT_PRODUCTS_DIR"@ {
        PBXSourceTreeView::BuildProductsDir
    } else if s == "SDKROOT"@ {
        PBXSourceTreeView::SdkRoot
    } else if s == "DEVELOPER_DIR"@ {
        PBXSourceTreeView::DeveloperDir
    } else {
        PBXSourceTreeView::Custom(s)
    }
}

/// The text that names a source tree.
pub open spec fn source_tree_name(t: PBXSourceTreeView) -> Seq<char> {
    match t {
        PBXSourceTreeView::Unspecified => ""@,
        PBXSourceTreeView::Absolute => "<absolute>"@,
        PBXSourceTreeView::Group => "<group>"@,
        PBXSourceTreeView::SourceRoot => "SOURCE_ROOT"@,
        PBXSourceTreeView::BuildProductsDir => "BUILT_PRODUCTS_DIR"@,
        PBXSourceTreeView::SdkRoot => "SDKROOT"@,
        PBXSourceTreeView::DeveloperDir => "DEVELOPER_DIR"@,
        PBXSourceTreeView::Custom(s) => s,
    }
}

/// Writing down the source tree of a name gives the name back.
pub proof fn lemma_source_tree_name_of(s: Seq<char>)
    ensures
        source_tree_name(source_tree_of(s)) == s,
{
}

impl Default for PBXSourceTree {
    fn default() -> (r: Self)
        ensures
            r@ == PBXSourceTreeView::Unspecified,
    {
        PBXSourceTree::Unspecified
    }
}

impl Clone for PBXSourceTree {
    fn clone(&self) -> (r: Self)
        ensures
            r == *self,
    {
        match self {
            PBXSourceTree::Unspecified => PBXSourceTree::Unspecified,
            PBXSourceTree::Absolute => PBXSourceTree::Absolute,
            PBXSourceTree::Group => PBXSourceTree::Group,
            PBXSourceTree::SourceRoot => PBXSourceTree::SourceRoot,
            PBXSourceTree::BuildProductsDir => PBXSourceTree::BuildProductsDir,
            PBXSourceTree::SdkRoot => PBXSourceTree::SdkRoot,
            PBXSourceTree::DeveloperDir => PBXSourceTree::DeveloperDir,
            PBXSourceTree::Custom(s) => PBXSourceTree::Custom(s.clone()),
        }
    }
}

impl PartialEq for PBXSourceTree {
    fn eq(&self, other: &Self) -> (r: bool) {
        match (self, other) {
            (PBXSourceTree::Unspecified, PBXSourceTree::Unspecified) => true,
            (PBXSourceTree::Absolute, PBXSourceTree::Absolute) => true,
            (PBXSourceTree::Group, PBXSourceTree::Group) => true,
            (PBXSourceTree::SourceRoot, PBXSourceTree::SourceRoot) => true,
            (PBXSourceTree::BuildProductsDir, PBXSourceTree::BuildProductsDir) => true,
            (PBXSourceTree::SdkRoot, PBXSourceTree::SdkRoot) => true,
            (PBXSourceTree::DeveloperDir, PBXSourceTree::DeveloperDir) => true,
            (PBXSourceTree::Custom(a), PBXSourceTree::Custom(b)) => same_text(
                a.as_str(),
                b.as_str(),
            ),
            _ => false,
        }
    }
}

impl vstd::std_specs::cmp::PartialEqSpecImpl for PBXSourceTree {
    open spec fn obeys_eq_spec() -> bool {
        true
    }

    open spec fn eq_spec(&self, other: &Self) -> bool {
        self@ == other@
    }
}

impl Eq for PBXSourceTree {

}

impl PBXSourceTree {
    /// The source tree that `s` names.
    pub fn from_name(s: &str) -> (r: PBXSourceTree)
        ensures
            r@ == source_tree_of(s@),
    {
        if same_text(s, "") {
            PBXSourceTree::Unspecified
        } else if same_text(s, "<absolute>") {
            PBXSourceTree::Absolute
        } else if same_text(s, "<group>") {
            PBXSourceTree::Group
        } else if same_text(s, "SOURCE_ROOT") {
            PBXSourceTree::SourceRoot
        } else if same_text(s, "BUILT_PRODUCTS_DIR") {
            PBXSourceTree::BuildProductsDir
        } else if same_text(s, "SDKROOT") {
            PBXSourceTree::SdkRoot
        } else if same_text(s, "DEVELOPER_DIR") {
            PBXSourceTree::DeveloperDir
        } else {
            PBXSourceTree::Custom(String::from_str(s))
        }
    }

    /// The text that names this source tree.
    pub fn to_string(&self) -> (r: String)
        ensures
            r@ == source_tree_name(self@),
    {
        match self {
            PBXSourceTree::Unspecified => String::from_str(""),
            PBXSourceTree::Absolute => String::from_str("<absolute>"),
            PBXSourceTree::Group => String::from_str("<group>"),
            PBXSourceTree::SourceRoot => String::from_str("SOURCE_ROOT"),
            PBXSourceTree::BuildProductsDir => String::from_str("BUILT_PRODUCTS_DIR"),
            PBXSourceTree::SdkRoot => String::from_str("SDKROOT"),
            PBXSourceTree::DeveloperDir => String::from_str("DEVELOPER_DIR"),
            PBXSourceTree::Custom(s) => s.clone(),
        }
    }
}

} // verus!
