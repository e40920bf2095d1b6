//! Reading and querying Xcode `project.pbxproj` files.
//!
//! The text of a project file is parsed into a tree of [`PBXValue`]s
//! ([`PBXProjectParser`], after the grammar in [`grammar`]). The root of the
//! file ([`PBXRootObject`]) holds its objects in a [`PBXObjectCollection`],
//! each once, under its identifier and in the order of the file. Typed objects
//! (projects, targets, build phases, file references, ...) are built on
//! demand from the fields of an object, and hold the objects that they refer
//! to: a reference is an identifier, followed through the collection.
//!
//! A few rules hold throughout:
//! - The keys of fields are kept as they are written in the file.
//! - The kind of an object is the kind that its `isa` field holds. The parser
//!   reads a bare name of the table of kinds as a kind; any other `isa` gives an
//!   unknown kind, and no typed object.
//! - A root is read whole or not at all: every entry of its objects is an
//!   object, and no identifier comes twice.
//! - A reference that leads to nothing is passed over where a list of objects
//!   is built, and is an error where one object is asked for that must be
//!   there.
//! - Where objects refer to each other in a circle, the circle is cut at the
//!   object that is being built already (see [`collection`]).
//! - Every contract speaks of the mathematical value of what it takes and
//!   gives: sequences of characters for strings, sequences of pairs for the
//!   fields of an object.
pub mod build_phase;
pub mod build_rule;
pub mod collection;
pub mod configuration;
pub mod error;
pub mod fs_reference;
pub mod grammar;
pub mod kind;
pub mod lookup;
pub mod object;
pub mod package;
pub mod parser;
pub mod path;
pub mod platform;
pub mod product_type;
pub mod project;
pub mod proxy;
pub mod queries;
pub mod root;
pub mod scenario;
pub mod scheme;
pub mod source_tree;
pub mod target;
pub mod target_info;
pub mod text;
pub mod value;
pub mod xcode_project;

pub use build_phase::{PBXBuildFile, PBXBuildPhase, PBXShellScriptBuildPhase};
pub use build_rule::PBXBuildRule;
pub use collection::{AsPBXObject, PBXObjectCollection};
pub use configuration::{XCBuildConfiguration, XCConfigurationList};
pub use error::{PBXError, PBXSyntaxElement, PBXValueKind};
pub use fs_reference::PBXFSReference;
pub use kind::{PBXBuildPhaseKind, PBXFSReferenceKind, PBXObjectKind, PBXTargetKind};
pub use object::PBXObject;
pub use package::{
    XCRemoteSwiftPackageReference, XCSwiftPackageProductDependency, XCVersionRequirement,
};
pub use parser::PBXProjectParser;
pub use platform::PBXTargetPlatform;
pub use product_type::PBXProductType;
pub use project::PBXProject;
pub use proxy::{PBXContainerItemProxy, PBXProxyType};
pub use root::PBXRootObject;
pub use scheme::XCScheme;
pub use source_tree::PBXSourceTree;
pub use target::{PBXTarget, PBXTargetDependency};
pub use target_info::PBXTargetInfo;
pub use value::{PBXHashMap, PBXValue, PBXVec};
pub use xcode_project::XCodeProject;
