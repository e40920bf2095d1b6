use xcodeproj::error::{PBXError, PBXValueKind};
use xcodeproj::product_type::PBXProductType;
use xcodeproj::root::PBXRootObject;
use xcodeproj::scheme::{file_stem, parent_directory, XCScheme};
use xcodeproj::source_tree::PBXSourceTree;
use xcodeproj::xcode_project::XCodeProject;

#[test]
fn source_trees() {
    let names = ["", "<absolute>", "<group>", "SOURCE_ROOT", "BUILT_PRODUCTS_DIR", "SDKROOT", "DEVELOPER_DIR", "MY_TREE"];
    for name in names {
        assert_eq!(PBXSourceTree::from_name(name).to_string(), name);
    }
    assert_eq!(PBXSourceTree::from_name(""), PBXSourceTree::Unspecified);
    assert_eq!(PBXSourceTree::from_name("<absolute>"), PBXSourceTree::Absolute);
    assert_eq!(PBXSourceTree::from_name("<group>"), PBXSourceTree::Group);
    assert_eq!(PBXSourceTree::from_name("SOURCE_ROOT"), PBXSourceTree::SourceRoot);
    assert_eq!(PBXSourceTree::from_name("BUILT_PRODUCTS_DIR"), PBXSourceTree::BuildProductsDir);
    assert_eq!(PBXSourceTree::from_name("SDKROOT"), PBXSourceTree::SdkRoot);
    assert_eq!(PBXSourceTree::from_name("DEVELOPER_DIR"), PBXSourceTree::DeveloperDir);
    assert_eq!(PBXSourceTree::from_name("MY_TREE"), PBXSourceTree::Custom("MY_TREE".into()));
    assert_eq!(PBXSourceTree::default(), PBXSourceTree::Unspecified);
    assert_ne!(PBXSourceTree::Custom("a".into()), PBXSourceTree::Custom("b".into()));
}

#[test]
fn product_types() {
    assert_eq!(
        PBXProductType::from_name("com.apple.product-type.application"),
        PBXProductType::Application
    );
    assert_eq!(
        PBXProductType::from_name("com.apple.product-type.bundle.unit-test"),
        PBXProductType::UnitTestBundle
    );
    assert_eq!(PBXProductType::from_name("com.apple.product-type"), PBXProductType::Unspecified);
    assert_eq!(PBXProductType::from_name(""), PBXProductType::Unspecified);
    assert_eq!(PBXProductType::Unspecified.to_string(), "");
    assert_eq!(
        PBXProductType::StickerPack.to_string(),
        "com.apple.product-type.app-extension.messages-sticker-pack"
    );
    assert_eq!(PBXProductType::Application.file_extension(), Some("app"));
    assert_eq!(PBXProductType::AppExtension.file_extension(), Some("appex"));
    assert_eq!(PBXProductType::StaticFramework.file_extension(), Some("framework"));
    assert_eq!(PBXProductType::UiTestBundle.file_extension(), Some("xctest"));
    assert_eq!(PBXProductType::DynamicLibrary.file_extension(), Some("dylib"));
    assert_eq!(PBXProductType::StaticLibrary.file_extension(), Some("a"));
    assert_eq!(PBXProductType::SystemExtension.file_extension(), Some("systemextension"));
    assert_eq!(PBXProductType::CommandLineTool.file_extension(), None);
    assert_eq!(PBXProductType::Unspecified.file_extension(), None);
    let all = [
        PBXProductType::Application, PBXProductType::Framework, PBXProductType::StaticFramework,
        PBXProductType::XcFramework, PBXProductType::DynamicLibrary, PBXProductType::StaticLibrary,
        PBXProductType::Bundle, PBXProductType::UnitTestBundle, PBXProductType::UiTestBundle,
        PBXProductType::AppExtension, PBXProductType::CommandLineTool, PBXProductType::WatchApp,
        PBXProductType::Watch2App, PBXProductType::Watch2AppContainer, PBXProductType::WatchExtension,
        PBXProductType::Watch2Extension, PBXProductType::TvExtension, PBXProductType::MessagesApplication,
        PBXProductType::MessagesExtension, PBXProductType::StickerPack, PBXProductType::XpcService,
        PBXProductType::OcUnitTestBundle, PBXProductType::XcodeExtension, PBXProductType::InstrumentsPackage,
        PBXProductType::IntentsServiceExtension, PBXProductType::OnDemandInstallCapableApplication,
        PBXProductType::MetalLibrary, PBXProductType::DriverExtension, PBXProductType::SystemExtension,
    ];
    for product in all {
        assert_eq!(PBXProductType::from_name(&product.to_string()), product);
    }
}

#[test]
fn stems_and_parents() {
    assert_eq!(file_stem("/a/b/Wordle.xcodeproj"), "Wordle");
    assert_eq!(file_stem("Wordle.xcodeproj"), "Wordle");
    assert_eq!(file_stem("/a.b/App.debug.xcscheme"), "App");
    assert_eq!(file_stem("/a/b/noextension"), "noextension");
    assert_eq!(file_stem("/a/b/"), "");
    assert_eq!(file_stem(""), "");
    assert_eq!(parent_directory("/a/b/Wordle.xcodeproj"), "/a/b");
    assert_eq!(parent_directory("a/Wordle.xcodeproj"), "a");
    assert_eq!(parent_directory("/Wordle.xcodeproj"), "/");
    assert_eq!(parent_directory("Wordle.xcodeproj"), "");
}

#[test]
fn project_from_its_parts() {
    let text = "{ archiveVersion = 1; objectVersion = 56; rootObject = P; objects = {
        B1 = { isa = PBXBuildFile; fileRef = F1; };
        B2 = { isa = PBXBuildFile; fileRef = F2; };
        B3 = { isa = PBXBuildFile; fileRef = F3; };
        B4 = { isa = PBXBuildFile; productRef = PD; };
        B5 = { isa = PBXBuildFile; fileRef = Z; };
        F1 = { isa = PBXFileReference; path = a.swift; name = A; };
        F2 = { isa = PBXFileReference; name = B; };
        F3 = { isa = PBXFileReference; };
    }; }";
    let scheme = XCScheme::with_file_name(
        "/a/b/Wordle.xcworkspace/xcshareddata/xcschemes/Wordle.Debug.xcscheme",
        Some("1320".to_string()),
        Some("1.3".to_string()),
        None,
    );
    assert_eq!(scheme.name, "Wordle");
    assert_eq!(scheme.last_upgrade_version, Some("1320".to_string()));
    assert_eq!(scheme.version, Some("1.3".to_string()));
    assert_eq!(scheme.was_created_for_app_extension, None);
    let project = XCodeProject::from_parts("/a/b/Wordle.xcodeproj", text, vec![scheme]).unwrap();
    assert_eq!(project.name(), "Wordle");
    assert_eq!(project.root(), "/a/b");
    assert_eq!(project.schemes().len(), 1);
    assert_eq!(project.pbxproj().object_version(), 56);
    assert_eq!(project.build_file_names(), vec!["a.swift".to_string(), "B".to_string()]);
    assert!(XCodeProject::from_parts("/a/b/Wordle.xcodeproj", "{", vec![]).unwrap_err().is_syntax());
}

#[test]
fn root_needs_its_fields() {
    let missing = |text: &str, key: &str| {
        assert!(PBXRootObject::try_from_str(text).unwrap_err().is_missing_field(key), "{key}");
    };
    missing("{ objectVersion = 1; rootObject = P; objects = { }; }", "archiveVersion");
    missing("{ archiveVersion = 1; rootObject = P; objects = { }; }", "objectVersion");
    missing("{ archiveVersion = 1; objectVersion = 1; objects = { }; }", "rootObject");
    missing("{ archiveVersion = 1; objectVersion = 1; rootObject = P; }", "objects");
    missing("{ }", "archiveVersion");
    assert!(matches!(
        PBXRootObject::try_from_str("{ archiveVersion = one; objectVersion = 1; rootObject = P; objects = { }; }"),
        Err(PBXError::TypeMismatch { expected: PBXValueKind::Number, actual: PBXValueKind::String })
    ));
    assert!(matches!(
        PBXRootObject::try_from_str("{ archiveVersion = 1; objectVersion = 1; rootObject = P; objects = ( ); }"),
        Err(PBXError::TypeMismatch { expected: PBXValueKind::Object, actual: PBXValueKind::Vec })
    ));
    assert!(PBXRootObject::try_from_str("{ archiveVersion = 1;").unwrap_err().is_syntax());
    assert!(matches!(
        PBXRootObject::try_from_str("{ archiveVersion = 257; objectVersion = 46; rootObject = P; objects = { }; }"),
        Err(PBXError::OutOfRange { key }) if key == "archiveVersion"
    ));
    assert!(matches!(
        PBXRootObject::try_from_str("{ archiveVersion = 1; objectVersion = 256; rootObject = P; objects = { }; }"),
        Err(PBXError::OutOfRange { key }) if key == "objectVersion"
    ));
    assert!(matches!(
        PBXRootObject::try_from_str(
            "{ archiveVersion = 1; objectVersion = 46; rootObject = P; objects = { A = { }; B = 1; C = c; }; }"
        ),
        Err(PBXError::TypeMismatch { expected: PBXValueKind::Object, actual: PBXValueKind::Number })
    ));
    let root = PBXRootObject::try_from_str(
        "{ archiveVersion = 255; objectVersion = 46; rootObject = P; objects = { }; classes = { A = b; }; }",
    )
    .unwrap();
    assert_eq!(root.archive_version(), 255);
    assert_eq!(root.object_version(), 46);
    assert_eq!(root.classes().len(), 1);
    assert_eq!(root.objects().len(), 0);
    assert!(root.root_project().is_none());
    assert!(root.root_group().is_none());
    let mut root = root;
    root.objects_mut().0.insert("X".to_string(), xcodeproj::value::PBXValue::Null);
    assert_eq!(root.objects().len(), 1);
}
