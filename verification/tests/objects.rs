use xcodeproj::collection::AsPBXObject;
use xcodeproj::build_phase::PBXBuildPhase;
use xcodeproj::error::{PBXError, PBXValueKind};
use xcodeproj::fs_reference::PBXFSReference;
use xcodeproj::kind::{PBXBuildPhaseKind, PBXTargetKind};
use xcodeproj::object::PBXObject;
use xcodeproj::package::XCVersionRequirement;
use xcodeproj::product_type::PBXProductType;
use xcodeproj::proxy::PBXProxyType;
use xcodeproj::root::PBXRootObject;
use xcodeproj::target::PBXTarget;
use xcodeproj::value::PBXValue;

fn load(objects: &str) -> PBXRootObject {
    let text = format!(
        "{{ archiveVersion = 1; objectVersion = 56; rootObject = P; objects = {{ {objects} }}; }}"
    );
    PBXRootObject::try_from_str(&text).unwrap()
}

#[test]
fn dangling_references_are_passed_over() {
    let root = load(
        "G = { isa = PBXGroup; children = (A, Z, B, ); };
         A = { isa = PBXFileReference; path = a; };
         B = { isa = PBXFileReference; path = b; };",
    );
    let group = root.objects().get_group("G").unwrap();
    assert_eq!(group.children.iter().map(|c| c.id.as_str()).collect::<Vec<_>>(), vec!["A", "B"]);
    let keys = vec!["A".to_string(), "Z".to_string(), "B".to_string(), "G".to_string()];
    let found = root.objects().get_vec::<PBXObject>(&keys);
    assert_eq!(found.len(), 3);
    assert!(matches!(&found[0], PBXObject::PBXFSReference(r) if r.id == "A"));
    assert!(matches!(&found[1], PBXObject::PBXFSReference(r) if r.id == "B"));
    assert!(matches!(&found[2], PBXObject::PBXFSReference(r) if r.id == "G"));
    assert!(root.objects().get_vec::<PBXFSReference>(&vec!["Z".to_string()]).is_empty());
    assert!(root.objects().get::<PBXObject>("Z").is_none());
    match root.objects().try_get::<PBXObject>("Z") {
        Err(PBXError::DanglingReference { id }) => assert_eq!(id, "Z"),
        other => panic!("{other:?}"),
    }
    assert!(root.objects().try_get::<PBXFSReference>("A").is_ok());
    assert!(root.objects().get::<PBXFSReference>("A").is_some());
    assert!(root.objects().get::<PBXTarget>("A").is_none());
    assert!(matches!(
        root.objects().try_get::<PBXTarget>("A"),
        Err(PBXError::DanglingReference { id }) if id == "A"
    ));
    let typed = root.objects().get_vec::<PBXFSReference>(&keys);
    assert_eq!(typed.iter().map(|f| f.id.as_str()).collect::<Vec<_>>(), vec!["A", "B", "G"]);
}

#[test]
fn objects_of_every_kind() {
    let root = load(
        "T = { isa = PBXAggregateTarget; productType = x; };
         BP = { isa = PBXHeadersBuildPhase; };
         F = { isa = PBXFileReference; };
         BC = { isa = XCBuildConfiguration; name = Debug; buildSettings = { }; };
         BF = { isa = PBXBuildFile; };
         BR = { isa = PBXBuildRule; };
         CL = { isa = XCConfigurationList; defaultConfigurationIsVisible = 1; };
         CP = { isa = PBXContainerItemProxy; containerPortal = P; proxyType = 1; };
         RP = { isa = XCRemoteSwiftPackageReference; };
         PD = { isa = XCSwiftPackageProductDependency; productName = Logging; };
         TD = { isa = PBXTargetDependency; target = T; targetProxy = CP; };
         U = { isa = PBXFutureKind; };
         Q = { isa = \"PBXBuildFile\"; };
         W = { isa = 7; };
         N = { name = none; };",
    );
    let objects = root.objects();
    assert!(matches!(objects.get::<PBXObject>("T"), Some(PBXObject::PBXTarget(_))));
    assert!(matches!(objects.get::<PBXObject>("BP"), Some(PBXObject::PBXBuildPhase(_))));
    assert!(matches!(objects.get::<PBXObject>("F"), Some(PBXObject::PBXFSReference(_))));
    assert!(matches!(objects.get::<PBXObject>("BC"), Some(PBXObject::XCBuildConfiguration(_))));
    assert!(matches!(objects.get::<PBXObject>("BF"), Some(PBXObject::PBXBuildFile(_))));
    assert!(matches!(objects.get::<PBXObject>("BR"), Some(PBXObject::PBXBuildRule(_))));
    assert!(matches!(objects.get::<PBXObject>("CL"), Some(PBXObject::XCConfigurationList(_))));
    assert!(matches!(objects.get::<PBXObject>("CP"), Some(PBXObject::PBXContainerItemProxy(_))));
    assert!(matches!(objects.get::<PBXObject>("RP"), Some(PBXObject::XCRemoteSwiftPackageReference(_))));
    assert!(matches!(objects.get::<PBXObject>("PD"), Some(PBXObject::XCSwiftPackageProductDependency(_))));
    assert!(matches!(objects.get::<PBXObject>("TD"), Some(PBXObject::PBXTargetDependency(_))));
    assert!(objects.get::<PBXObject>("U").is_none());
    assert!(objects.get::<PBXObject>("N").is_none());
    assert!(objects.get::<PBXObject>("Q").is_none());
    assert!(objects.build_files().iter().all(|f| f.id != "Q"));

    let fields = objects.0.get_value("U").unwrap();
    assert!(matches!(
        PBXObject::new("U".to_string(), fields, objects),
        Err(PBXError::KindMismatch { id }) if id == "U"
    ));
    assert_eq!(
        objects.kind_of("U"),
        Some(xcodeproj::kind::PBXObjectKind::Unknown("PBXFutureKind".to_string()))
    );
    assert_eq!(objects.kind_of("T"), Some(xcodeproj::kind::PBXObjectKind::PBXTarget(PBXTargetKind::Aggregate)));
    assert_eq!(
        objects.kind_of("Q"),
        Some(xcodeproj::kind::PBXObjectKind::Unknown("PBXBuildFile".to_string()))
    );
    assert!(matches!(
        PBXObject::new("Q".to_string(), objects.0.get_value("Q").unwrap(), objects),
        Err(PBXError::KindMismatch { id }) if id == "Q"
    ));
    assert_eq!(objects.kind_of("N"), None);
    assert_eq!(objects.kind_of("W"), None);
    assert_eq!(objects.kind_of("nowhere"), None);
    assert!(matches!(
        PBXObject::new("W".to_string(), objects.0.get_value("W").unwrap(), objects),
        Err(PBXError::TypeMismatch { expected: PBXValueKind::Kind, actual: PBXValueKind::Number })
    ));
    assert!(
        PBXObject::new("N".to_string(), objects.0.get_value("N").unwrap(), objects)
            .unwrap_err()
            .is_missing_field("isa")
    );
    assert!(matches!(
        PBXObject::new("S".to_string(), &PBXValue::String("text".to_string()), objects),
        Err(PBXError::TypeMismatch { expected: PBXValueKind::Object, actual: PBXValueKind::String })
    ));
    let unknown = PBXValue::Object(xcodeproj::value::PBXHashMap::new(vec![(
        "isa".to_string(),
        PBXValue::Kind(xcodeproj::kind::PBXObjectKind::Unknown("PBXFutureKind".to_string())),
    )]));
    assert!(matches!(
        PBXObject::new("X".to_string(), &unknown, objects),
        Err(PBXError::KindMismatch { id }) if id == "X"
    ));

    let dependency = objects.get_target_dependency("TD").unwrap();
    assert_eq!(dependency.target.unwrap().kind, PBXTargetKind::Aggregate);
    assert_eq!(dependency.target_proxy.unwrap().proxy_type, Some(PBXProxyType::NativeTarget));
    assert_eq!(objects.get_container_item_proxy("CP").unwrap().container_portal_reference, "P");
    assert_eq!(objects.get_build_configuration("BC").unwrap().name, "Debug");
    assert!(objects.get_configuration_list("CL").unwrap().default_configuration_is_visible);
}

#[test]
fn objects_picked_by_a_predicate() {
    let root = load(
        "A = { isa = PBXFileReference; path = a.swift; };
         B = { isa = PBXFileReference; path = b.m; };
         G = { isa = PBXGroup; children = (A, B, ); };
         U = { isa = PBXFutureKind; path = u.swift; };",
    );
    let swift = root.objects().get_vec_by::<PBXObject, _>(|_, fields| {
        fields.get_string("path").map(|p| p.ends_with(".swift")).unwrap_or_default()
    });
    assert_eq!(swift.len(), 1);
    assert!(matches!(&swift[0], PBXObject::PBXFSReference(r) if r.id == "A"));
    let all = root.objects().get_vec_by::<PBXObject, _>(|_, _| true);
    assert_eq!(all.len(), 3);
    let by_id = root.objects().get_vec_by::<PBXFSReference, _>(|id, _| id == "G");
    assert_eq!(by_id.len(), 1);
    assert_eq!(by_id[0].children.len(), 2);
    let files = root.objects().get_vec_by::<PBXFSReference, _>(|_, _| true);
    assert_eq!(files.iter().map(|f| f.id.as_str()).collect::<Vec<_>>(), vec!["A", "B", "G"]);
    assert!(root.objects().get_vec_by::<PBXTarget, _>(|_, _| true).is_empty());
    assert!(root.objects().get_vec_by::<PBXTarget, _>(|_, _| false).is_empty());
}

#[test]
fn object_outside_the_collection_keeps_its_children() {
    let root = load("F = { isa = PBXFileReference; path = a; };");
    let objects = root.objects();
    let outside = xcodeproj::parser::PBXProjectParser::try_from_str(
        "{ isa = PBXGroup; children = (F, A, ); }",
    )
    .unwrap();
    let group = PBXFSReference::as_pbx_object("A".to_string(), &outside, objects).unwrap();
    assert_eq!(group.children.len(), 1);
    assert_eq!(group.children[0].id, "F");
    let value = PBXValue::Object(outside);
    assert!(matches!(
        PBXObject::new("A".to_string(), &value, objects),
        Ok(PBXObject::PBXFSReference(r)) if r.children.len() == 1
    ));
}

#[test]
fn collection_with_an_entry_that_is_no_object() {
    let map = xcodeproj::parser::PBXProjectParser::try_from_str(
        "{ F = { isa = PBXFileReference; }; S = text; G = { isa = PBXGroup; children = (S, F, ); }; }",
    )
    .unwrap();
    let objects = xcodeproj::collection::PBXObjectCollection::new(map);
    assert!(objects.get::<PBXObject>("S").is_none());
    assert_eq!(objects.kind_of("S"), None);
    assert!(objects.object("S").is_none());
    assert_eq!(objects.get_group("G").unwrap().children.len(), 1);
    assert_eq!(objects.get_vec_by::<PBXObject, _>(|_, _| true).len(), 2);
}

#[test]
fn wrong_kind_is_an_error() {
    let root = load("F = { isa = PBXFileReference; path = a; }; N = { path = a; };");
    let objects = root.objects();
    let fields = objects.object("F").unwrap();
    assert!(matches!(
        PBXTarget::as_pbx_object("F".to_string(), fields, objects),
        Err(PBXError::KindMismatch { id }) if id == "F"
    ));
    assert!(matches!(
        PBXBuildPhase::as_pbx_object("F".to_string(), fields, objects),
        Err(PBXError::KindMismatch { id }) if id == "F"
    ));
    assert!(PBXFSReference::as_pbx_object("F".to_string(), fields, objects).is_ok());
    let fields = objects.object("N").unwrap();
    assert!(
        PBXFSReference::as_pbx_object("N".to_string(), fields, objects)
            .unwrap_err()
            .is_missing_field("isa")
    );
}

#[test]
fn targets_by_kind() {
    let root = load(
        "N = { isa = PBXNativeTarget; name = N; productType = \"com.apple.product-type.framework\";
               productInstallPath = \"$(HOME)/Applications\"; buildToolPath = /usr/bin/make; };
         L = { isa = PBXLegacyTarget; name = L; productType = \"\"; productInstallPath = nowhere;
               buildToolPath = /usr/bin/make; buildArgumentsString = \"$(ACTION)\";
               passBuildSettingsInEnvironment = 1; buildWorkingDirectory = build; };
         A = { isa = PBXAggregateTarget; name = A; productType = other; buildToolPath = /usr/bin/make; };
         M = { isa = PBXNativeTarget; name = M; };",
    );
    let objects = root.objects();
    let native = objects.get_target("N").unwrap();
    assert_eq!(native.kind, PBXTargetKind::Native);
    assert_eq!(native.product_type, PBXProductType::Framework);
    assert_eq!(native.product_install_path, Some("$(HOME)/Applications".to_string()));
    assert_eq!(native.build_tool_path, None);
    let legacy = objects.get_target("L").unwrap();
    assert_eq!(legacy.kind, PBXTargetKind::Legacy);
    assert_eq!(legacy.product_type, PBXProductType::Unspecified);
    assert_eq!(legacy.product_install_path, None);
    assert_eq!(legacy.build_tool_path, Some("/usr/bin/make".to_string()));
    assert_eq!(legacy.build_arguments_string, Some("$(ACTION)".to_string()));
    assert_eq!(legacy.pass_build_settings_in_environment, Some(true));
    assert_eq!(legacy.build_working_directory, Some("build".to_string()));
    let aggregate = objects.get_target("A").unwrap();
    assert_eq!(aggregate.kind, PBXTargetKind::Aggregate);
    assert_eq!(aggregate.build_tool_path, None);
    // a target must say what it produces
    assert!(objects.get_target("M").is_none());
    assert!(
        PBXTarget::as_pbx_object("M".to_string(), objects.object("M").unwrap(), objects)
            .unwrap_err()
            .is_missing_field("productType")
    );
    assert_eq!(objects.targets().len(), 3);
}

#[test]
fn build_phases_and_their_defaults() {
    let root = load(
        "S = { isa = PBXSourcesBuildPhase; };
         R = { isa = PBXShellScriptBuildPhase; buildActionMask = 8; runOnlyForDeploymentPostprocessing = 1;
               inputPaths = (a, b, ); outputPaths = ( ); shellPath = /bin/sh; shellScript = \"echo\";
               inputFileListPaths = (list, ); };
         Q = { isa = PBXShellScriptBuildPhase; inputPaths = ( ); outputPaths = ( ); showEnvVarsInLog = 0;
               alwaysOutOfDate = 1; dependencyFile = deps.d; name = Lint; };
         X = { isa = PBXShellScriptBuildPhase; outputPaths = ( ); };
         C = { isa = PBXCopyFilesBuildPhase; buildActionMask = text; };",
    );
    let objects = root.objects();
    let sources = objects.get_build_phase("S").unwrap();
    assert_eq!(sources.kind, PBXBuildPhaseKind::Sources);
    assert_eq!(sources.build_action_mask, 2147483647);
    assert!(!sources.run_only_for_deployment_postprocessing);
    assert!(sources.inner.is_none());
    assert!(sources.files.is_empty());
    assert_eq!(sources.input_file_list_paths, None);
    assert!(sources.is_sources() && !sources.is_run_script());
    let script = objects.get_build_phase("R").unwrap();
    assert!(script.is_run_script());
    assert_eq!(script.build_action_mask, 8);
    assert!(script.run_only_for_deployment_postprocessing);
    assert_eq!(script.input_file_list_paths, Some(vec!["list".to_string()]));
    let inner = script.inner.unwrap();
    assert_eq!(inner.input_paths, vec!["a".to_string(), "b".to_string()]);
    assert!(inner.output_paths.is_empty());
    assert_eq!(inner.shell_path, Some("/bin/sh".to_string()));
    assert_eq!(inner.shell_script, Some("echo".to_string()));
    assert!(inner.show_env_vars_in_log);
    assert!(!inner.always_out_of_date);
    let lint = objects.get_build_phase("Q").unwrap().inner.unwrap();
    assert!(!lint.show_env_vars_in_log);
    assert!(lint.always_out_of_date);
    assert_eq!(lint.dependency_file, Some("deps.d".to_string()));
    assert_eq!(lint.name, Some("Lint".to_string()));
    assert!(objects.get_build_phase("X").is_none());
    assert!(
        PBXBuildPhase::as_pbx_object("X".to_string(), objects.object("X").unwrap(), objects)
            .unwrap_err()
            .is_missing_field("inputPaths")
    );
    let copy = objects.get_build_phase("C").unwrap();
    assert!(copy.is_copy_files());
    assert_eq!(copy.build_action_mask, 2147483647);
    assert_eq!(objects.build_phases().len(), 4);
}

#[test]
fn build_file_and_phase_in_a_circle() {
    let root = load(
        "PH = { isa = PBXSourcesBuildPhase; files = (F1, ); };
         F1 = { isa = PBXBuildFile; buildPhaseReference = PH; settings = { ATTRIBUTES = (Public, ); }; };
         T1 = { isa = PBXNativeTarget; productType = x; dependencies = (D1, ); };
         D1 = { isa = PBXTargetDependency; target = T1; };",
    );
    let objects = root.objects();
    let phase = objects.get_build_phase("PH").unwrap();
    assert_eq!(phase.files.len(), 1);
    assert!(phase.files[0].build_phase.is_none());
    assert!(phase.files[0].settings.unwrap().is_object());
    let file = objects.get_build_file("F1").unwrap();
    let inside = file.build_phase.unwrap();
    assert_eq!(inside.id, "PH");
    assert!(inside.files.is_empty());
    let target = objects.get_target("T1").unwrap();
    assert_eq!(target.target_dependencies.len(), 1);
    assert!(target.target_dependencies[0].target.is_none());
}

#[test]
fn version_requirements() {
    let root = load(
        "A = { isa = XCRemoteSwiftPackageReference; repositoryURL = \"https://example.com/a.git\";
               requirement = { kind = upToNextMajorVersion; minimumVersion = 1.0.0; }; };
         B = { isa = XCRemoteSwiftPackageReference; requirement = { kind = upToNextMinorVersion; minimumVersion = 1.2.0; }; };
         C = { isa = XCRemoteSwiftPackageReference; requirement = { kind = versionRange; minimumVersion = 1.0.0; maximumVersion = 2.0.0; }; };
         D = { isa = XCRemoteSwiftPackageReference; requirement = { kind = exactVersion; version = 1.4.2; }; };
         E = { isa = XCRemoteSwiftPackageReference; requirement = { kind = branch; branch = main; }; };
         F = { isa = XCRemoteSwiftPackageReference; requirement = { kind = revision; revision = abc123; }; };
         G = { isa = XCRemoteSwiftPackageReference; requirement = { kind = newest; }; };
         H = { isa = XCRemoteSwiftPackageReference; requirement = { kind = exactVersion; }; };
         I = { isa = XCRemoteSwiftPackageReference; requirement = text; };
         J = { isa = XCRemoteSwiftPackageReference; };",
    );
    let objects = root.objects();
    let get = |id: &str| objects.get_swift_package_reference(id).unwrap().version_requirement;
    assert_eq!(get("A"), Some(XCVersionRequirement::UpToNextMajorVersion("1.0.0".into())));
    assert_eq!(get("B"), Some(XCVersionRequirement::UpToNextMinorVersion("1.2.0".into())));
    assert_eq!(get("C"), Some(XCVersionRequirement::Range("1.0.0".into(), "2.0.0".into())));
    assert_eq!(get("D"), Some(XCVersionRequirement::Exact("1.4.2".into())));
    assert_eq!(get("E"), Some(XCVersionRequirement::Branch("main".into())));
    assert_eq!(get("F"), Some(XCVersionRequirement::Revision("abc123".into())));
    assert_eq!(get("G"), None);
    assert_eq!(get("H"), None);
    assert_eq!(get("I"), None);
    assert_eq!(get("J"), None);
    let value = |id: &str| objects.object(id).unwrap().get_value("requirement").unwrap();
    assert!(matches!(
        XCVersionRequirement::try_from_value(value("G")),
        Err(PBXError::UnknownVersionRequirement { kind }) if kind == "newest"
    ));
    assert!(XCVersionRequirement::try_from_value(value("H")).unwrap_err().is_missing_field("version"));
    assert!(matches!(
        XCVersionRequirement::try_from_value(value("I")),
        Err(PBXError::TypeMismatch { expected: PBXValueKind::Object, actual: PBXValueKind::String })
    ));
    assert_eq!(objects.swift_package_references().len(), 10);
}

#[test]
fn proxy_types() {
    assert_eq!(PBXProxyType::from_value(&PBXValue::Number(1)), Some(PBXProxyType::NativeTarget));
    assert_eq!(PBXProxyType::from_value(&PBXValue::Number(2)), Some(PBXProxyType::Reference));
    assert_eq!(PBXProxyType::from_value(&PBXValue::Number(0)), Some(PBXProxyType::Other(0)));
    assert_eq!(PBXProxyType::from_value(&PBXValue::Number(7)), Some(PBXProxyType::Other(7)));
    assert_eq!(PBXProxyType::from_value(&PBXValue::Number(258)), Some(PBXProxyType::Other(2)));
    assert_eq!(PBXProxyType::from_value(&PBXValue::String("1".into())), None);
}
