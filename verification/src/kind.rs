//! Object kinds: what the `isa` field of an object says it is.
use vstd::prelude::*;
use crate::text::same_text;

verus! {

/// The three kinds of target.
#[derive(Clone, Copy, Debug, PartialEq, Eq, Structural)]
pub enum PBXTargetKind {
    /// A build target that produces a binary content (application or library).
    Native,
    /// A build target that Xcode calls an "External Build System".
    Legacy,
    /// A build target that aggregates several others.
    Aggregate,
}

/// The kinds of build phase.
#[derive(Clone, Copy, Debug, PartialEq, Eq, Structural)]
pub enum PBXBuildPhaseKind {
    /// Compile sources.
    Sources,
    /// Link frameworks.
    Frameworks,
    /// Copy resources.
    Resources,
    /// Copy files.
    CopyFiles,
    /// Run a shell script.
    RunScript,
    /// Copy headers.
    Headers,
    /// Build legacy Carbon resources.
    CarbonResources,
}

/// The kinds of file-system reference: a file, or one of three kinds of group.
#[derive(Clone, Copy, Debug, PartialEq, Eq, Structural)]
pub enum PBXFSReferenceKind {
    /// A group of files.
    FileGroup,
    /// A group holding the versions of one resource.
    VersionGroup,
    /// A group holding the localized variants of one resource.
    VariantGroup,
    /// A reference to a file.
    File,
}

/// The kind of an object.
#[derive(Debug)]
pub enum PBXObjectKind {
    /// One of the target kinds.
    PBXTarget(PBXTargetKind),
    /// One of the build phase kinds.
    PBXBuildPhase(PBXBuildPhaseKind),
    /// A file reference or a group.
    PBXFSReference(PBXFSReferenceKind),
    /// A build configuration.
    XCBuildConfiguration,
    /// A file as used by a build phase.
    PBXBuildFile,
    /// A build rule.
    PBXBuildRule,
    /// A list of build configurations.
    XCConfigurationList,
    /// A proxy for an object of another container.
    PBXContainerItemProxy,
    /// The project itself.
    PBXProject,
    /// A reference to a remote Swift package.
    XCRemoteSwiftPackageReference,
    /// A product of a Swift package that a target depends on.
    XCSwiftPackageProductDependency,
    /// A dependency of one target on another.
    PBXTargetDependency,
    /// A kind that this library does not model, with its name as written.
    Unknown(String),
}

/// The mathematical value of a [`PBXObjectKind`].
pub enum PBXObjectKindView {
    PBXTarget(PBXTargetKind),
    PBXBuildPhase(PBXBuildPhaseKind),
    PBXFSReference(PBXFSReferenceKind),
    XCBuildConfiguration,
    PBXBuildFile,
    PBXBuildRule,
    XCConfigurationList,
    PBXContainerItemProxy,
    PBXProject,
    XCRemoteSwiftPackageReference,
    XCSwiftPackageProductDependency,
    PBXTargetDependency,
    Unknown(Seq<char>),
}

impl View for PBXObjectKind {
    type V = PBXObjectKindView;

    open spec fn view(&self) -> PBXObjectKindView {
        match self {
            PBXObjectKind::PBXTarget(k) => PBXObjectKindView::PBXTarget(*k),
            PBXObjectKind::PBXBuildPhase(k) => PBXObjectKindView::PBXBuildPhase(*k),
            PBXObjectKind::PBXFSReference(k) => PBXObjectKindView::PBXFSReference(*k),
            PBXObjectKind::XCBuildConfiguration => PBXObjectKindView::XCBuildConfiguration,
            PBXObjectKind::PBXBuildFile => PBXObjectKindView::PBXBuildFile,
            PBXObjectKind::PBXBuildRule => PBXObjectKindView::PBXBuildRule,
            PBXObjectKind::XCConfigurationList => PBXObjectKindView::XCConfigurationList,
            PBXObjectKind::PBXContainerItemProxy => PBXObjectKindView::PBXContainerItemProxy,
            PBXObjectKind::PBXProject => PBXObjectKindView::PBXProject,
            PBXObjectKind::XCRemoteSwiftPackageReference =>
                PBXObjectKindView::XCRemoteSwiftPackageReference,
            PBXObjectKind::XCSwiftPackageProductDependency =>
                PBXObjectKindView::XCSwiftPackageProductDependency,
            PBXObjectKind::PBXTargetDependency => PBXObjectKindView::PBXTargetDependency,
            PBXObjectKind::Unknown(s) => PBXObjectKindView::Unknown(s@),
        }
    }
}

/// The `isa` name of a target kind.
pub open spec fn target_isa(k: PBXTargetKind) -> Seq<char> {
    match k {
        PBXTargetKind::Native => "PBXNativeTarget"@,
        PBXTargetKind::Legacy => "PBXLegacyTarget"@,
        PBXTargetKind::Aggregate => "PBXAggregateTarget"@,
    }
}

/// The `isa` name of a build phase kind.
pub open spec fn build_phase_isa(k: PBXBuildPhaseKind) -> Seq<char> {
    match k {
        PBXBuildPhaseKind::Sources => "PBXSourcesBuildPhase"@,
        PBXBuildPhaseKind::Frameworks => "PBXFrameworksBuildPhase"@,
        PBXBuildPhaseKind::Resources => "PBXResourcesBuildPhase"@,
        PBXBuildPhaseKind::CopyFiles => "PBXCopyFilesBuildPhase"@,
        PBXBuildPhaseKind::RunScript => "PBXShellScriptBuildPhase"@,
        PBXBuildPhaseKind::Headers => "PBXHeadersBuildPhase"@,
        PBXBuildPhaseKind::CarbonResources => "PBXRezBuildPhase"@,
    }
}

/// The `isa` name of a file-system reference kind.
pub open spec fn fs_reference_isa(k: PBXFSReferenceKind) -> Seq<char> {
    match k {
        PBXFSReferenceKind::FileGroup => "PBXGroup"@,
        PBXFSReferenceKind::VersionGroup => "XCVersionGroup"@,
        PBXFSReferenceKind::VariantGroup => "PBXVariantGroup"@,
        PBXFSReferenceKind::File => "PBXFileReference"@,
    }
}

/// The kind that an `isa` name stands for. Every name has a kind: a name that
/// is not in the table is `Unknown` and keeps its text.
pub open spec fn classify(s: Seq<char>) -> PBXObjectKindView {
    if s == "PBXBuildFile"@ {
        PBXObjectKindView::PBXBuildFile
    } else if s == "PBXFileReference"@ {
        PBXObjectKindView::PBXFSReference(PBXFSReferenceKind::File)
    } else if s == "PBXLegacyTarget"@ {
        PBXObjectKindView::PBXTarget(PBXTargetKind::Legacy)
    } else if s == "PBXNativeTarget"@ {
        PBXObjectKindView::PBXTarget(PBXTargetKind::Native)
    } else if s == "PBXAggregateTarget"@ {
        PBXObjectKindView::PBXTarget(PBXTargetKind::Aggregate)
    } else if s == "PBXProject"@ {
        PBXObjectKindView::PBXProject
    } else if s == "PBXGroup"@ {
        PBXObjectKindView::PBXFSReference(PBXFSReferenceKind::FileGroup)
    } else if s == "PBXHeadersBuildPhase"@ {
        PBXObjectKindView::PBXBuildPhase(PBXBuildPhaseKind::Headers)
    } else if s == "PBXFrameworksBuildPhase"@ {
        PBXObjectKindView::PBXBuildPhase(PBXBuildPhaseKind::Frameworks)
    } else if s == "PBXResourcesBuildPhase"@ {
        PBXObjectKindView::PBXBuildPhase(PBXBuildPhaseKind::Resources)
    } else if s == "PBXShellScriptBuildPhase"@ {
        PBXObjectKindView::PBXBuildPhase(PBXBuildPhaseKind::RunScript)
    } else if s == "PBXSourcesBuildPhase"@ {
        PBXObjectKindView::PBXBuildPhase(PBXBuildPhaseKind::Sources)
    } else if s == "PBXCopyFilesBuildPhase"@ {
        PBXObjectKindView::PBXBuildPhase(PBXBuildPhaseKind::CopyFiles)
    } else if s == "PBXRezBuildPhase"@ {
        PBXObjectKindView::PBXBuildPhase(PBXBuildPhaseKind::CarbonResources)
    } else if s == "XCConfigurationList"@ {
        PBXObjectKindView::XCConfigurationList
    } else if s == "PBXTargetDependency"@ {
        PBXObjectKindView::PBXTargetDependency
    } else if s == "PBXVariantGroup"@ {
        PBXObjectKindView::PBXFSReference(PBXFSReferenceKind::VariantGroup)
    } else if s == "XCBuildConfiguration"@ {
        PBXObjectKindView::XCBuildConfiguration
    } else if s == "PBXContainerItemProxy"@ {
        PBXObjectKindView::PBXContainerItemProxy
    } else if s == "XCVersionGroup"@ {
        PBXObjectKindView::PBXFSReference(PBXFSReferenceKind::VersionGroup)
    } else if s == "PBXBuildRule"@ {
        PBXObjectKindView::PBXBuildRule
    } else if s == "XCRemoteSwiftPackageReference"@ {
        PBXObjectKindView::XCRemoteSwiftPackageReference
    } else if s == "XCSwiftPackageProductDependency"@ {
        PBXObjectKindView::XCSwiftPackageProductDependency
    } else {
        PBXObjectKindView::Unknown(s)
    }
}

/// The `isa` name of a kind: for an unknown kind, the text it was made from.
pub open spec fn canonical_string(k: PBXObjectKindView) -> Seq<char> {
    match k {
        PBXObjectKindView::PBXTarget(t) => target_isa(t),
        PBXObjectKindView::PBXBuildPhase(p) => build_phase_isa(p),
        PBXObjectKindView::PBXFSReference(f) => fs_reference_isa(f),
        PBXObjectKindView::XCBuildConfiguration => "XCBuildConfiguration"@,
        PBXObjectKindView::PBXBuildFile => "PBXBuildFile"@,
        PBXObjectKindView::PBXBuildRule => "PBXBuildRule"@,
        PBXObjectKindView::XCConfigurationList => "XCConfigurationList"@,
        PBXObjectKindView::PBXContainerItemProxy => "PBXContainerItemProxy"@,
        PBXObjectKindView::PBXProject => "PBXProject"@,
        PBXObjectKindView::XCRemoteSwiftPackageReference => "XCRemoteSwiftPackageReference"@,
        PBXObjectKindView::XCSwiftPackageProductDependency => "XCSwiftPackageProductDependency"@,
        PBXObjectKindView::PBXTargetDependency => "PBXTargetDependency"@,
        PBXObjectKindView::Unknown(s) => s,
    }
}

/// Whether `s` is one of the names in the table of kinds.
pub open spec fn is_known_isa(s: Seq<char>) -> bool {
    !(classify(s) is Unknown)
}

/// Writing down the kind of a name gives the name back.
pub proof fn lemma_canonical_of_classify(s: Seq<char>)
    ensures
        canonical_string(classify(s)) == s,
{
}

/// Reading the name of a modelled kind gives the kind back.
pub proof fn lemma_classify_of_canonical(k: PBXObjectKindView)
    requires
        !(k is Unknown),
    ensures
        classify(canonical_string(k)) == k,
{
    reveal_strlit("PBXBuildFile");
    reveal_strlit("PBXFileReference");
    reveal_strlit("PBXLegacyTarget");
    reveal_strlit("PBXNativeTarget");
    reveal_strlit("PBXAggregateTarget");
    reveal_strlit("PBXProject");
    reveal_strlit("PBXGroup");
    reveal_strlit("PBXHeadersBuildPhase");
    reveal_strlit("PBXFrameworksBuildPhase");
    reveal_strlit("PBXResourcesBuildPhase");
    reveal_strlit("PBXShellScriptBuildPhase");
    reveal_strlit("PBXSourcesBuildPhase");
    reveal_strlit("PBXCopyFilesBuildPhase");
    reveal_strlit("PBXRezBuildPhase");
    reveal_strlit("XCConfigurationList");
    reveal_strlit("PBXTargetDependency");
    reveal_strlit("PBXVariantGroup");
    reveal_strlit("XCBuildConfiguration");
    reveal_strlit("PBXContainerItemProxy");
    reveal_strlit("XCVersionGroup");
    reveal_strlit("PBXBuildRule");
    reveal_strlit("XCRemoteSwiftPackageReference");
    reveal_strlit("XCSwiftPackageProductDependency");
    assert("PBXBuildFile"@.len() == 12);
    assert("PBXFileReference"@.len() == 16);
    assert("PBXLegacyTarget"@.len() == 15);
    assert("PBXNativeTarget"@.len() == 15);
    assert("PBXAggregateTarget"@.len() == 18);
    assert("PBXProject"@.len() == 10);
    assert("PBXGroup"@.len() == 8);
    assert("PBXHeadersBuildPhase"@.len() == 20);
    assert("PBXFrameworksBuildPhase"@.len() == 23);
    assert("PBXResourcesBuildPhase"@.len() == 22);
    assert("PBXShellScriptBuildPhase"@.len() == 24);
    assert("PBXSourcesBuildPhase"@.len() == 20);
    assert("PBXCopyFilesBuildPhase"@.len() == 22);
    assert("PBXRezBuildPhase"@.len() == 16);
    assert("XCConfigurationList"@.len() == 19);
    assert("PBXTargetDependency"@.len() == 19);
    assert("PBXVariantGroup"@.len() == 15);
    assert("XCBuildConfiguration"@.len() == 20);
    assert("PBXContainerItemProxy"@.len() == 21);
    assert("XCVersionGroup"@.len() == 14);
    assert("PBXBuildRule"@.len() == 12);
    assert("XCRemoteSwiftPackageReference"@.len() == 29);
    assert("XCSwiftPackageProductDependency"@.len() == 31);
    assert("PBXNativeTarget"@[3] != "PBXLegacyTarget"@[3]);
    assert("PBXSourcesBuildPhase"@[3] != "PBXHeadersBuildPhase"@[3]);
    assert("PBXCopyFilesBuildPhase"@[3] != "PBXResourcesBuildPhase"@[3]);
    assert("PBXRezBuildPhase"@[3] != "PBXFileReference"@[3]);
    assert("PBXTargetDependency"@[0] != "XCConfigurationList"@[0]);
    assert("PBXVariantGroup"@[3] != "PBXLegacyTarget"@[3]);
    assert("PBXVariantGroup"@[3] != "PBXNativeTarget"@[3]);
    assert("XCBuildConfiguration"@[0] != "PBXHeadersBuildPhase"@[0]);
    assert("XCBuildConfiguration"@[0] != "PBXSourcesBuildPhase"@[0]);
    assert("PBXBuildRule"@[8] != "PBXBuildFile"@[8]);
}

/// Whether `c` is a letter of the English alphabet.
pub open spec fn is_letter(c: char) -> bool {
    ('a' <= c <= 'z') || ('A' <= c <= 'Z')
}

/// Whether `s` is made of letters only.
pub open spec fn all_letters(s: Seq<char>) -> bool {
    forall|i: int| 0 <= i < s.len() ==> is_letter(#[trigger] s[i])
}

/// The names in the table of kinds are made of letters only.
pub proof fn lemma_kind_names_are_letters(s: Seq<char>)
    requires
        is_known_isa(s),
    ensures
        all_letters(s),
{
    reveal_strlit("PBXBuildFile");
    reveal_strlit("PBXFileReference");
    reveal_strlit("PBXLegacyTarget");
    reveal_strlit("PBXNativeTarget");
    reveal_strlit("PBXAggregateTarget");
    reveal_strlit("PBXProject");
    reveal_strlit("PBXGroup");
    reveal_strlit("PBXHeadersBuildPhase");
    reveal_strlit("PBXFrameworksBuildPhase");
    reveal_strlit("PBXResourcesBuildPhase");
    reveal_strlit("PBXShellScriptBuildPhase");
    reveal_strlit("PBXSourcesBuildPhase");
    reveal_strlit("PBXCopyFilesBuildPhase");
    reveal_strlit("PBXRezBuildPhase");
    reveal_strlit("XCConfigurationList");
    reveal_strlit("PBXTargetDependency");
    reveal_strlit("PBXVariantGroup");
    reveal_strlit("XCBuildConfiguration");
    reveal_strlit("PBXContainerItemProxy");
    reveal_strlit("XCVersionGroup");
    reveal_strlit("PBXBuildRule");
    reveal_strlit("XCRemoteSwiftPackageReference");
    reveal_strlit("XCSwiftPackageProductDependency");
    assert(all_letters("PBXBuildFile"@));
    assert(all_letters("PBXFileReference"@));
    assert(all_letters("PBXLegacyTarget"@));
    assert(all_letters("PBXNativeTarget"@));
    assert(all_letters("PBXAggregateTarget"@));
    assert(all_letters("PBXProject"@));
    assert(all_letters("PBXGroup"@));
    assert(all_letters("PBXHeadersBuildPhase"@));
    assert(all_letters("PBXFrameworksBuildPhase"@));
    assert(all_letters("PBXResourcesBuildPhase"@));
    assert(all_letters("PBXShellScriptBuildPhase"@));
    assert(all_letters("PBXSourcesBuildPhase"@));
    assert(all_letters("PBXCopyFilesBuildPhase"@));
    assert(all_letters("PBXRezBuildPhase"@));
    assert(all_letters("XCConfigurationList"@));
    assert(all_letters("PBXTargetDependency"@));
    assert(all_letters("PBXVariantGroup"@));
    assert(all_letters("XCBuildConfiguration"@));
    assert(all_letters("PBXContainerItemProxy"@));
    assert(all_letters("XCVersionGroup"@));
    assert(all_letters("PBXBuildRule"@));
    assert(all_letters("XCRemoteSwiftPackageReference"@));
    assert(all_letters("XCSwiftPackageProductDependency"@));
}

/// An unknown kind is read back from its text exactly when the text is not in
/// the table of kinds.
pub proof fn lemma_classify_unknown(s: Seq<char>)
    ensures
        classify(canonical_string(PBXObjectKindView::Unknown(s))) == PBXObjectKindView::Unknown(s)
            <==> !is_known_isa(s),
{
}


impl PBXTargetKind {
    /// The `isa` name of this kind of target.
    pub fn as_isa(&self) -> (r: &'static str)
        ensures
            r@ == target_isa(*self),
    {
        match self {
            PBXTargetKind::Native => "PBXNativeTarget",
            PBXTargetKind::Legacy => "PBXLegacyTarget",
            PBXTargetKind::Aggregate => "PBXAggregateTarget",
        }
    }

    /// Whether this is the native kind.
    pub fn is_native(&self) -> (r: bool)
        ensures
            r == (*self == PBXTargetKind::Native),
    {
        matches!(self, PBXTargetKind::Native)
    }

    /// Whether this is the legacy kind.
    pub fn is_legacy(&self) -> (r: bool)
        ensures
            r == (*self == PBXTargetKind::Legacy),
    {
        matches!(self, PBXTargetKind::Legacy)
    }

    /// Whether this is the aggregate kind.
    pub fn is_aggregate(&self) -> (r: bool)
        ensures
            r == (*self == PBXTargetKind::Aggregate),
    {
        matches!(self, PBXTargetKind::Aggregate)
    }
}

/// The display name of a build phase kind, as Xcode shows it.
pub open spec fn build_phase_name(k: PBXBuildPhaseKind) -> Seq<char> {
    match k {
        PBXBuildPhaseKind::Sources => "Sources"@,
        PBXBuildPhaseKind::Frameworks => "Frameworks"@,
        PBXBuildPhaseKind::Resources => "Resources"@,
        PBXBuildPhaseKind::CopyFiles => "CopyFiles"@,
        PBXBuildPhaseKind::RunScript => "Run Script"@,
        PBXBuildPhaseKind::Headers => "Headers"@,
        PBXBuildPhaseKind::CarbonResources => "Rez"@,
    }
}

/// The build phase kind with the display name `s`, if there is one.
pub open spec fn build_phase_named(s: Seq<char>) -> Option<PBXBuildPhaseKind> {
    if s == "Sources"@ {
        Some(PBXBuildPhaseKind::Sources)
    } else if s == "Frameworks"@ {
        Some(PBXBuildPhaseKind::Frameworks)
    } else if s == "Resources"@ {
        Some(PBXBuildPhaseKind::Resources)
    } else if s == "CopyFiles"@ {
        Some(PBXBuildPhaseKind::CopyFiles)
    } else if s == "Run Script"@ {
        Some(PBXBuildPhaseKind::RunScript)
    } else if s == "Headers"@ {
        Some(PBXBuildPhaseKind::Headers)
    } else if s == "Rez"@ {
        Some(PBXBuildPhaseKind::CarbonResources)
    } else {
        None
    }
}

impl PBXBuildPhaseKind {
    /// The `isa` name of this kind of build phase.
    pub fn as_isa(&self) -> (r: &'static str)
        ensures
            r@ == build_phase_isa(*self),
    {
        match self {
            PBXBuildPhaseKind::Headers => "PBXHeadersBuildPhase",
            PBXBuildPhaseKind::Frameworks => "PBXFrameworksBuildPhase",
            PBXBuildPhaseKind::Resources => "PBXResourcesBuildPhase",
            PBXBuildPhaseKind::RunScript => "PBXShellScriptBuildPhase",
            PBXBuildPhaseKind::Sources => "PBXSourcesBuildPhase",
            PBXBuildPhaseKind::CopyFiles => "PBXCopyFilesBuildPhase",
            PBXBuildPhaseKind::CarbonResources => "PBXRezBuildPhase",
        }
    }

    /// The display name of this kind of build phase.
    pub fn to_string(&self) -> (r: String)
        ensures
            r@ == build_phase_name(*self),
    {
        String::from_str(
            match self {
                PBXBuildPhaseKind::Sources => "Sources",
                PBXBuildPhaseKind::Frameworks => "Frameworks",
                PBXBuildPhaseKind::Resources => "Resources",
                PBXBuildPhaseKind::CopyFiles => "CopyFiles",
                PBXBuildPhaseKind::RunScript => "Run Script",
                PBXBuildPhaseKind::Headers => "Headers",
                PBXBuildPhaseKind::CarbonResources => "Rez",
            },
        )
    }

    /// The kind with the display name `value`; `None` when no kind has it.
    pub fn try_from_name(value: &str) -> (r: Option<PBXBuildPhaseKind>)
        ensures
            r == build_phase_named(value@),
    {
        if same_text(value, "Sources") {
            Some(PBXBuildPhaseKind::Sources)
        } else if same_text(value, "Frameworks") {
            Some(PBXBuildPhaseKind::Frameworks)
        } else if same_text(value, "Resources") {
            Some(PBXBuildPhaseKind::Resources)
        } else if same_text(value, "CopyFiles") {
            Some(PBXBuildPhaseKind::CopyFiles)
        } else if same_text(value, "Run Script") {
            Some(PBXBuildPhaseKind::RunScript)
        } else if same_text(value, "Headers") {
            Some(PBXBuildPhaseKind::Headers)
        } else if same_text(value, "Rez") {
            Some(PBXBuildPhaseKind::CarbonResources)
        } else {
            None
        }
    }

    /// Whether this is the `Sources` kind.
    pub fn is_sources(&self) -> (r: bool)
        ensures
            r == (*self == PBXBuildPhaseKind::Sources),
    {
        matches!(self, PBXBuildPhaseKind::Sources)
    }

    /// Whether this is the `Frameworks` kind.
    pub fn is_frameworks(&self) -> (r: bool)
        ensures
            r == (*self == PBXBuildPhaseKind::Frameworks),
    {
        matches!(self, PBXBuildPhaseKind::Frameworks)
    }

    /// Whether this is the `Resources` kind.
    pub fn is_resources(&self) -> (r: bool)
        ensures
            r == (*self == PBXBuildPhaseKind::Resources),
    {
        matches!(self, PBXBuildPhaseKind::Resources)
    }

    /// Whether this is the `CopyFiles` kind.
    pub fn is_copy_files(&self) -> (r: bool)
        ensures
            r == (*self == PBXBuildPhaseKind::CopyFiles),
    {
        matches!(self, PBXBuildPhaseKind::CopyFiles)
    }

    /// Whether this is the `RunScript` kind.
    pub fn is_run_script(&self) -> (r: bool)
        ensures
            r == (*self == PBXBuildPhaseKind::RunScript),
    {
        matches!(self, PBXBuildPhaseKind::RunScript)
    }

    /// Whether this is the `Headers` kind.
    pub fn is_headers(&self) -> (r: bool)
        ensures
            r == (*self == PBXBuildPhaseKind::Headers),
    {
        matches!(self, PBXBuildPhaseKind::Headers)
    }

    /// Whether this is the `CarbonResources` kind.
    pub fn is_carbon_resources(&self) -> (r: bool)
        ensures
            r == (*self == PBXBuildPhaseKind::CarbonResources),
    {
        matches!(self, PBXBuildPhaseKind::CarbonResources)
    }
}

impl PBXFSReferenceKind {
    /// The `isa` name of this kind of reference.
    pub fn as_isa(&self) -> (r: &'static str)
        ensures
            r@ == fs_reference_isa(*self),
    {
        match self {
            PBXFSReferenceKind::FileGroup => "PBXGroup",
            PBXFSReferenceKind::VersionGroup => "XCVersionGroup",
            PBXFSReferenceKind::VariantGroup => "PBXVariantGroup",
            PBXFSReferenceKind::File => "PBXFileReference",
        }
    }

    /// Whether a reference of this kind is a group of any kind.
    pub open spec fn spec_is_group(&self) -> bool {
        *self != PBXFSReferenceKind::File
    }

    /// Whether this is one of the three group kinds.
    #[verifier::when_used_as_spec(spec_is_group)]
    pub fn is_group(&self) -> (r: bool)
        ensures
            r == self.spec_is_group(),
    {
        self.is_file_group() || self.is_version_group() || self.is_variant_group()
    }

    /// Whether this is the `FileGroup` kind.
    pub fn is_file_group(&self) -> (r: bool)
        ensures
            r == (*self == PBXFSReferenceKind::FileGroup),
    {
        matches!(self, PBXFSReferenceKind::FileGroup)
    }

    /// Whether this is the `VersionGroup` kind.
    pub fn is_version_group(&self) -> (r: bool)
        ensures
            r == (*self == PBXFSReferenceKind::VersionGroup),
    {
        matches!(self, PBXFSReferenceKind::VersionGroup)
    }

    /// Whether this is the `VariantGroup` kind.
    pub fn is_variant_group(&self) -> (r: bool)
        ensures
            r == (*self == PBXFSReferenceKind::VariantGroup),
    {
        matches!(self, PBXFSReferenceKind::VariantGroup)
    }

    /// Whether this is the `File` kind.
    pub fn is_file(&self) -> (r: bool)
        ensures
            r == (*self == PBXFSReferenceKind::File),
    {
        matches!(self, PBXFSReferenceKind::File)
    }
}

impl Default for PBXFSReferenceKind {
    fn default() -> (r: Self)
        ensures
            r == PBXFSReferenceKind::FileGroup,
    {
        PBXFSReferenceKind::FileGroup
    }
}

impl Clone for PBXObjectKind {
    fn clone(&self) -> (r: Self)
        ensures
            r == *self,
    {
        match self {
            PBXObjectKind::PBXTarget(k) => PBXObjectKind::PBXTarget(*k),
            PBXObjectKind::PBXBuildPhase(k) => PBXObjectKind::PBXBuildPhase(*k),
            PBXObjectKind::PBXFSReference(k) => PBXObjectKind::PBXFSReference(*k),
            PBXObjectKind::XCBuildConfiguration => PBXObjectKind::XCBuildConfiguration,
            PBXObjectKind::PBXBuildFile => PBXObjectKind::PBXBuildFile,
            PBXObjectKind::PBXBuildRule => PBXObjectKind::PBXBuildRule,
            PBXObjectKind::XCConfigurationList => PBXObjectKind::XCConfigurationList,
            PBXObjectKind::PBXContainerItemProxy => PBXObjectKind::PBXContainerItemProxy,
            PBXObjectKind::PBXProject => PBXObjectKind::PBXProject,
            PBXObjectKind::XCRemoteSwiftPackageReference =>
                PBXObjectKind::XCRemoteSwiftPackageReference,
            PBXObjectKind::XCSwiftPackageProductDependency =>
                PBXObjectKind::XCSwiftPackageProductDependency,
            PBXObjectKind::PBXTargetDependency => PBXObjectKind::PBXTargetDependency,
            PBXObjectKind::Unknown(s) => PBXObjectKind::Unknown(s.clone()),
        }
    }
}

impl PartialEq for PBXObjectKind {
    fn eq(&self, other: &Self) -> (r: bool) {
        match (self, other) {
            (PBXObjectKind::PBXTarget(a), PBXObjectKind::PBXTarget(b)) => *a == *b,
            (PBXObjectKind::PBXBuildPhase(a), PBXObjectKind::PBXBuildPhase(b)) => *a == *b,
            (PBXObjectKind::PBXFSReference(a), PBXObjectKind::PBXFSReference(b)) => *a == *b,
            (PBXObjectKind::XCBuildConfiguration, PBXObjectKind::XCBuildConfiguration) => true,
            (PBXObjectKind::PBXBuildFile, PBXObjectKind::PBXBuildFile) => true,
            (PBXObjectKind::PBXBuildRule, PBXObjectKind::PBXBuildRule) => true,
            (PBXObjectKind::XCConfigurationList, PBXObjectKind::XCConfigurationList) => true,
            (PBXObjectKind::PBXContainerItemProxy, PBXObjectKind::PBXContainerItemProxy) => true,
            (PBXObjectKind::PBXProject, PBXObjectKind::PBXProject) => true,
            (
                PBXObjectKind::XCRemoteSwiftPackageReference,
                PBXObjectKind::XCRemoteSwiftPackageReference,
            ) => true,
            (
                PBXObjectKind::XCSwiftPackageProductDependency,
                PBXObjectKind::XCSwiftPackageProductDependency,
            ) => true,
            (PBXObjectKind::PBXTargetDependency, PBXObjectKind::PBXTargetDependency) => true,
            (PBXObjectKind::Unknown(a), PBXObjectKind::Unknown(b)) => same_text(
                a.as_str(),
                b.as_str(),
            ),
            _ => false,
        }
    }
}

impl vstd::std_specs::cmp::PartialEqSpecImpl for PBXObjectKind {
    open spec fn obeys_eq_spec() -> bool {
        true
    }

    open spec fn eq_spec(&self, other: &Self) -> bool {
        self@ == other@
    }
}

impl Eq for PBXObjectKind {

}

impl PBXObjectKind {
    /// The kind that the `isa` name `s` stands for. Never fails: a name that
    /// the table of kinds does not hold gives `Unknown` with the name.
    pub fn from_isa(s: &str) -> (r: PBXObjectKind)
        ensures
            r@ == classify(s@),
    {
        if same_text(s, "PBXBuildFile") {
            PBXObjectKind::PBXBuildFile
        } else if same_text(s, "PBXFileReference") {
            PBXObjectKind::PBXFSReference(PBXFSReferenceKind::File)
        } else if same_text(s, "PBXLegacyTarget") {
            PBXObjectKind::PBXTarget(PBXTargetKind::Legacy)
        } else if same_text(s, "PBXNativeTarget") {
            PBXObjectKind::PBXTarget(PBXTargetKind::Native)
        } else if same_text(s, "PBXAggregateTarget") {
            PBXObjectKind::PBXTarget(PBXTargetKind::Aggregate)
        } else if same_text(s, "PBXProject") {
            PBXObjectKind::PBXProject
        } else if same_text(s, "PBXGroup") {
            PBXObjectKind::PBXFSReference(PBXFSReferenceKind::FileGroup)
        } else if same_text(s, "PBXHeadersBuildPhase") {
            PBXObjectKind::PBXBuildPhase(PBXBuildPhaseKind::Headers)
        } else if same_text(s, "PBXFrameworksBuildPhase") {
            PBXObjectKind::PBXBuildPhase(PBXBuildPhaseKind::Frameworks)
        } else if same_text(s, "PBXResourcesBuildPhase") {
            PBXObjectKind::PBXBuildPhase(PBXBuildPhaseKind::Resources)
        } else if same_text(s, "PBXShellScriptBuildPhase") {
            PBXObjectKind::PBXBuildPhase(PBXBuildPhaseKind::RunScript)
        } else if same_text(s, "PBXSourcesBuildPhase") {
            PBXObjectKind::PBXBuildPhase(PBXBuildPhaseKind::Sources)
        } else if same_text(s, "PBXCopyFilesBuildPhase") {
            PBXObjectKind::PBXBuildPhase(PBXBuildPhaseKind::CopyFiles)
        } else if same_text(s, "PBXRezBuildPhase") {
            PBXObjectKind::PBXBuildPhase(PBXBuildPhaseKind::CarbonResources)
        } else if same_text(s, "XCConfigurationList") {
            PBXObjectKind::XCConfigurationList
        } else if same_text(s, "PBXTargetDependency") {
            PBXObjectKind::PBXTargetDependency
        } else if same_text(s, "PBXVariantGroup") {
            PBXObjectKind::PBXFSReference(PBXFSReferenceKind::VariantGroup)
        } else if same_text(s, "XCBuildConfiguration") {
            PBXObjectKind::XCBuildConfiguration
        } else if same_text(s, "PBXContainerItemProxy") {
            PBXObjectKind::PBXContainerItemProxy
        } else if same_text(s, "XCVersionGroup") {
            PBXObjectKind::PBXFSReference(PBXFSReferenceKind::VersionGroup)
        } else if same_text(s, "PBXBuildRule") {
            PBXObjectKind::PBXBuildRule
        } else if same_text(s, "XCRemoteSwiftPackageReference") {
            PBXObjectKind::XCRemoteSwiftPackageReference
        } else if same_text(s, "XCSwiftPackageProductDependency") {
            PBXObjectKind::XCSwiftPackageProductDependency
        } else {
            PBXObjectKind::Unknown(String::from_str(s))
        }
    }

    /// The `isa` name of this kind.
    pub fn to_string(&self) -> (r: String)
        ensures
            r@ == canonical_string(self@),
    {
        match self {
            PBXObjectKind::PBXBuildFile => String::from_str("PBXBuildFile"),
            PBXObjectKind::PBXProject => String::from_str("PBXProject"),
            PBXObjectKind::XCConfigurationList => String::from_str("XCConfigurationList"),
            PBXObjectKind::PBXTargetDependency => String::from_str("PBXTargetDependency"),
            PBXObjectKind::XCBuildConfiguration => String::from_str("XCBuildConfiguration"),
            PBXObjectKind::PBXContainerItemProxy => String::from_str("PBXContainerItemProxy"),
            PBXObjectKind::PBXBuildRule => String::from_str("PBXBuildRule"),
            PBXObjectKind::XCRemoteSwiftPackageReference => String::from_str(
                "XCRemoteSwiftPackageReference",
            ),
            PBXObjectKind::XCSwiftPackageProductDependency => String::from_str(
                "XCSwiftPackageProductDependency",
            ),
            PBXObjectKind::PBXFSReference(kind) => String::from_str(kind.as_isa()),
            PBXObjectKind::PBXTarget(kind) => String::from_str(kind.as_isa()),
            PBXObjectKind::PBXBuildPhase(kind) => String::from_str(kind.as_isa()),
            PBXObjectKind::Unknown(s) => s.clone(),
        }
    }

    /// The target kind inside, or the kind itself when it is no target kind.
    pub fn try_into_target_kind(self) -> (r: Result<PBXTargetKind, PBXObjectKind>)
        ensures
            r == (match self {
                PBXObjectKind::PBXTarget(k) => Ok::<PBXTargetKind, PBXObjectKind>(k),
                _ => Err(self),
            }),
    {
        match self {
            PBXObjectKind::PBXTarget(k) => Ok(k),
            other => Err(other),
        }
    }

    /// The build phase kind inside, or the kind itself when it is none.
    pub fn try_into_build_phase_kind(self) -> (r: Result<PBXBuildPhaseKind, PBXObjectKind>)
        ensures
            r == (match self {
                PBXObjectKind::PBXBuildPhase(k) => Ok::<PBXBuildPhaseKind, PBXObjectKind>(k),
                _ => Err(self),
            }),
    {
        match self {
            PBXObjectKind::PBXBuildPhase(k) => Ok(k),
            other => Err(other),
        }
    }

    /// The file-system reference kind inside, or the kind itself when it is none.
    pub fn try_into_fs_reference_kind(self) -> (r: Result<PBXFSReferenceKind, PBXObjectKind>)
        ensures
            r == (match self {
                PBXObjectKind::PBXFSReference(k) => Ok::<PBXFSReferenceKind, PBXObjectKind>(k),
                _ => Err(self),
            }),
    {
        match self {
            PBXObjectKind::PBXFSReference(k) => Ok(k),
            other => Err(other),
        }
    }

    /// The text of an unknown kind, or the kind itself when it is modelled.
    pub fn try_into_unknown(self) -> (r: Result<String, PBXObjectKind>)
        ensures
            r == (match self {
                PBXObjectKind::Unknown(s) => Ok::<String, PBXObjectKind>(s),
                _ => Err(self),
            }),
    {
        match self {
            PBXObjectKind::Unknown(s) => Ok(s),
            other => Err(other),
        }
    }

    /// The target kind inside, if this is a target kind.
    pub fn as_pbx_target(&self) -> (r: Option<&PBXTargetKind>)
        ensures
            r == (match *self {
                PBXObjectKind::PBXTarget(k) => Some(&k),
                _ => None,
            }),
    {
        match self {
            PBXObjectKind::PBXTarget(k) => Some(k),
            _ => None,
        }
    }

    /// The build phase kind inside, if this is a build phase kind.
    pub fn as_pbx_build_phase(&self) -> (r: Option<&PBXBuildPhaseKind>)
        ensures
            r == (match *self {
                PBXObjectKind::PBXBuildPhase(k) => Some(&k),
                _ => None,
            }),
    {
        match self {
            PBXObjectKind::PBXBuildPhase(k) => Some(k),
            _ => None,
        }
    }

    /// The file-system reference kind inside, if this is one.
    pub fn as_pbxfs_reference(&self) -> (r: Option<&PBXFSReferenceKind>)
        ensures
            r == (match *self {
                PBXObjectKind::PBXFSReference(k) => Some(&k),
                _ => None,
            }),
    {
        match self {
            PBXObjectKind::PBXFSReference(k) => Some(k),
            _ => None,
        }
    }

    /// Whether this is one of the target kinds.
    pub fn is_pbx_target(&self) -> (r: bool)
        ensures
            r == (self@ is PBXTarget),
    {
        matches!(self, PBXObjectKind::PBXTarget(..))
    }

    /// Whether this is one of the build phase kinds.
    pub fn is_pbx_build_phase(&self) -> (r: bool)
        ensures
            r == (self@ is PBXBuildPhase),
    {
        matches!(self, PBXObjectKind::PBXBuildPhase(..))
    }

    /// Whether this is a file reference or a group.
    pub fn is_pbx_fsreference(&self) -> (r: bool)
        ensures
            r == (self@ is PBXFSReference),
    {
        matches!(self, PBXObjectKind::PBXFSReference(..))
    }

    /// Whether this is an unknown kind.
    pub fn is_unknown(&self) -> (r: bool)
        ensures
            r == (self@ is Unknown),
    {
        matches!(self, PBXObjectKind::Unknown(..))
    }

    /// Whether this is the project kind.
    pub fn is_pbx_project(&self) -> (r: bool)
        ensures
            r == (self@ == PBXObjectKindView::PBXProject),
    {
        matches!(self, PBXObjectKind::PBXProject)
    }

    /// Whether this is the project kind.
    pub fn is_project(&self) -> (r: bool)
        ensures
            r == (self@ == PBXObjectKindView::PBXProject),
    {
        matches!(self, PBXObjectKind::PBXProject)
    }

    /// Whether this is the build file kind.
    pub fn is_pbx_build_file(&self) -> (r: bool)
        ensures
            r == (self@ == PBXObjectKindView::PBXBuildFile),
    {
        matches!(self, PBXObjectKind::PBXBuildFile)
    }

    /// Whether this is the build file kind.
    pub fn is_build_file(&self) -> (r: bool)
        ensures
            r == (self@ == PBXObjectKindView::PBXBuildFile),
    {
        matches!(self, PBXObjectKind::PBXBuildFile)
    }

    /// Whether this is the build rule kind.
    pub fn is_pbx_build_rule(&self) -> (r: bool)
        ensures
            r == (self@ == PBXObjectKindView::PBXBuildRule),
    {
        matches!(self, PBXObjectKind::PBXBuildRule)
    }

    /// Whether this is the build rule kind.
    pub fn is_build_rule(&self) -> (r: bool)
        ensures
            r == (self@ == PBXObjectKindView::PBXBuildRule),
    {
        matches!(self, PBXObjectKind::PBXBuildRule)
    }

    /// Whether this is the build configuration kind.
    pub fn is_xc_build_configuration(&self) -> (r: bool)
        ensures
            r == (self@ == PBXObjectKindView::XCBuildConfiguration),
    {
        matches!(self, PBXObjectKind::XCBuildConfiguration)
    }

    /// Whether this is the build configuration kind.
    pub fn is_build_configuration(&self) -> (r: bool)
        ensures
            r == (self@ == PBXObjectKindView::XCBuildConfiguration),
    {
        matches!(self, PBXObjectKind::XCBuildConfiguration)
    }

    /// Whether this is the configuration list kind.
    pub fn is_xc_configuration_list(&self) -> (r: bool)
        ensures
            r == (self@ == PBXObjectKindView::XCConfigurationList),
    {
        matches!(self, PBXObjectKind::XCConfigurationList)
    }

    /// Whether this is the configuration list kind.
    pub fn is_configuration_list(&self) -> (r: bool)
        ensures
            r == (self@ == PBXObjectKindView::XCConfigurationList),
    {
        matches!(self, PBXObjectKind::XCConfigurationList)
    }

    /// Whether this is the container item proxy kind.
    pub fn is_pbx_container_item_proxy(&self) -> (r: bool)
        ensures
            r == (self@ == PBXObjectKindView::PBXContainerItemProxy),
    {
        matches!(self, PBXObjectKind::PBXContainerItemProxy)
    }

    /// Whether this is the container item proxy kind.
    pub fn is_container_item_proxy(&self) -> (r: bool)
        ensures
            r == (self@ == PBXObjectKindView::PBXContainerItemProxy),
    {
        matches!(self, PBXObjectKind::PBXContainerItemProxy)
    }

    /// Whether this is the target dependency kind.
    pub fn is_pbx_target_dependency(&self) -> (r: bool)
        ensures
            r == (self@ == PBXObjectKindView::PBXTargetDependency),
    {
        matches!(self, PBXObjectKind::PBXTargetDependency)
    }

    /// Whether this is the target dependency kind.
    pub fn is_target_dependency(&self) -> (r: bool)
        ensures
            r == (self@ == PBXObjectKindView::PBXTargetDependency),
    {
        matches!(self, PBXObjectKind::PBXTargetDependency)
    }

    /// Whether this is the remote Swift package reference kind.
    pub fn is_xc_remote_swift_package_reference(&self) -> (r: bool)
        ensures
            r == (self@ == PBXObjectKindView::XCRemoteSwiftPackageReference),
    {
        matches!(self, PBXObjectKind::XCRemoteSwiftPackageReference)
    }

    /// Whether this is the remote Swift package reference kind.
    pub fn is_remote_swift_package_reference(&self) -> (r: bool)
        ensures
            r == (self@ == PBXObjectKindView::XCRemoteSwiftPackageReference),
    {
        matches!(self, PBXObjectKind::XCRemoteSwiftPackageReference)
    }

    /// Whether this is the Swift package product dependency kind.
    pub fn is_xc_swift_package_product_dependency(&self) -> (r: bool)
        ensures
            r == (self@ == PBXObjectKindView::XCSwiftPackageProductDependency),
    {
        matches!(self, PBXObjectKind::XCSwiftPackageProductDependency)
    }

    /// Whether this is the Swift package product dependency kind.
    pub fn is_swift_package_product_dependency(&self) -> (r: bool)
        ensures
            r == (self@ == PBXObjectKindView::XCSwiftPackageProductDependency),
    {
        matches!(self, PBXObjectKind::XCSwiftPackageProductDependency)
    }

    /// Whether this is the native target kind.
    pub fn is_native_target(&self) -> (r: bool)
        ensures
            r == (self@ == PBXObjectKindView::PBXTarget(PBXTargetKind::Native)),
    {
        matches!(self, PBXObjectKind::PBXTarget(PBXTargetKind::Native))
    }

    /// Whether this is the legacy target kind.
    pub fn is_legacy_target(&self) -> (r: bool)
        ensures
            r == (self@ == PBXObjectKindView::PBXTarget(PBXTargetKind::Legacy)),
    {
        matches!(self, PBXObjectKind::PBXTarget(PBXTargetKind::Legacy))
    }

    /// Whether this is the aggregate target kind.
    pub fn is_aggregate_target(&self) -> (r: bool)
        ensures
            r == (self@ == PBXObjectKindView::PBXTarget(PBXTargetKind::Aggregate)),
    {
        matches!(self, PBXObjectKind::PBXTarget(PBXTargetKind::Aggregate))
    }

    /// Whether this is the file reference kind.
    pub fn is_file_reference(&self) -> (r: bool)
        ensures
            r == (self@ == PBXObjectKindView::PBXFSReference(PBXFSReferenceKind::File)),
    {
        matches!(self, PBXObjectKind::PBXFSReference(PBXFSReferenceKind::File))
    }

    /// Whether this is the plain group kind.
    pub fn is_group(&self) -> (r: bool)
        ensures
            r == (self@ == PBXObjectKindView::PBXFSReference(PBXFSReferenceKind::FileGroup)),
    {
        matches!(self, PBXObjectKind::PBXFSReference(PBXFSReferenceKind::FileGroup))
    }

    /// Whether this is the variant group kind.
    pub fn is_variant_group(&self) -> (r: bool)
        ensures
            r == (self@ == PBXObjectKindView::PBXFSReference(PBXFSReferenceKind::VariantGroup)),
    {
        matches!(self, PBXObjectKind::PBXFSReference(PBXFSReferenceKind::VariantGroup))
    }

    /// Whether this is the version group kind.
    pub fn is_version_group(&self) -> (r: bool)
        ensures
            r == (self@ == PBXObjectKindView::PBXFSReference(PBXFSReferenceKind::VersionGroup)),
    {
        matches!(self, PBXObjectKind::PBXFSReference(PBXFSReferenceKind::VersionGroup))
    }

    /// Whether this is the headers build phase kind.
    pub fn is_headers_build_phase(&self) -> (r: bool)
        ensures
            r == (self@ == PBXObjectKindView::PBXBuildPhase(PBXBuildPhaseKind::Headers)),
    {
        matches!(self, PBXObjectKind::PBXBuildPhase(PBXBuildPhaseKind::Headers))
    }

    /// Whether this is the frameworks build phase kind.
    pub fn is_frameworks_build_phase(&self) -> (r: bool)
        ensures
            r == (self@ == PBXObjectKindView::PBXBuildPhase(PBXBuildPhaseKind::Frameworks)),
    {
        matches!(self, PBXObjectKind::PBXBuildPhase(PBXBuildPhaseKind::Frameworks))
    }

    /// Whether this is the resources build phase kind.
    pub fn is_resources_build_phase(&self) -> (r: bool)
        ensures
            r == (self@ == PBXObjectKindView::PBXBuildPhase(PBXBuildPhaseKind::Resources)),
    {
        matches!(self, PBXObjectKind::PBXBuildPhase(PBXBuildPhaseKind::Resources))
    }

    /// Whether this is the shell script build phase kind.
    pub fn is_shell_script_build_phase(&self) -> (r: bool)
        ensures
            r == (self@ == PBXObjectKindView::PBXBuildPhase(PBXBuildPhaseKind::RunScript)),
    {
        matches!(self, PBXObjectKind::PBXBuildPhase(PBXBuildPhaseKind::RunScript))
    }

    /// Whether this is the sources build phase kind.
    pub fn is_sources_build_phase(&self) -> (r: bool)
        ensures
            r == (self@ == PBXObjectKindView::PBXBuildPhase(PBXBuildPhaseKind::Sources)),
    {
        matches!(self, PBXObjectKind::PBXBuildPhase(PBXBuildPhaseKind::Sources))
    }

    /// Whether this is the copy files build phase kind.
    pub fn is_copy_files_build_phase(&self) -> (r: bool)
        ensures
            r == (self@ == PBXObjectKindView::PBXBuildPhase(PBXBuildPhaseKind::CopyFiles)),
    {
        matches!(self, PBXObjectKind::PBXBuildPhase(PBXBuildPhaseKind::CopyFiles))
    }

    /// Whether this is the Carbon resources build phase kind.
    pub fn is_rez_build_phase(&self) -> (r: bool)
        ensures
            r == (self@ == PBXObjectKindView::PBXBuildPhase(PBXBuildPhaseKind::CarbonResources)),
    {
        matches!(self, PBXObjectKind::PBXBuildPhase(PBXBuildPhaseKind::CarbonResources))
    }
}

} // verus!
