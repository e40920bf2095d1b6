use xcodeproj::collection::{AsPBXObject, PBXObjectCollection};
use xcodeproj::error::PBXError;
use xcodeproj::kind::{PBXBuildPhaseKind, PBXFSReferenceKind, PBXTargetKind};
use xcodeproj::package::XCVersionRequirement;
use xcodeproj::product_type::PBXProductType;
use xcodeproj::root::PBXRootObject;
use xcodeproj::source_tree::PBXSourceTree;
use xcodeproj::value::{PBXValue, PBXVec};

/// A project in the shape that Xcode writes: one application target with three
/// build phases, seventeen file references, six groups and one Swift package.
const WORDLE: &str = r#"// !$*UTF8*$!
{
	archiveVersion = 1;
	classes = {
	};
	objectVersion = 55;
	objects = {

/* Begin PBXBuildFile section */
		95E4BB41EEB0A8E86D4C2959 /* WordleApp.swift in Sources */ = {isa = PBXBuildFile; fileRef = 99EC54A9F26E5664C9F8A220 /* WordleApp.swift */; };
		62ADFAF7EDC910F8379C61C6 /* ContentView.swift in Sources */ = {isa = PBXBuildFile; fileRef = 1A4C8F32E95A9FD25E99B0F8 /* ContentView.swift */; };
		94A2D8F0FE97D3120C462079 /* Log.swift in Sources */ = {isa = PBXBuildFile; fileRef = 1A65C6F4088C5C7309386BEC /* Log.swift */; };
		B85DC9E12B7580D90035FF47 /* Game.swift in Sources */ = {isa = PBXBuildFile; fileRef = 376138E54988EAA0A969BD31 /* Game.swift */; };
		1252320C7C908A94F80E47F6 /* Word.swift in Sources */ = {isa = PBXBuildFile; fileRef = 3760A8CD05FF6AABAE494F22 /* Word.swift */; };
		7DA529C5810711B68EC0E702 /* Letter.swift in Sources */ = {isa = PBXBuildFile; fileRef = B82E291233BF899086C9974C /* Letter.swift */; };
		B10374D0800F8E0542ADA442 /* Keyboard.swift in Sources */ = {isa = PBXBuildFile; fileRef = 28E7F406E2770D9BBB6AF162 /* Keyboard.swift */; };
		FD7FF949CD32BAED8ED94CE6 /* GuessView.swift in Sources */ = {isa = PBXBuildFile; fileRef = 0CA85860DF5DAE170DDD5B4C /* GuessView.swift */; };
		19D20F8DACC791EB5FDC21E9 /* KeyboardView.swift in Sources */ = {isa = PBXBuildFile; fileRef = 3F4CCB809E199A35D578B2CC /* KeyboardView.swift */; };
		AE807817786A98EA884014A4 /* BoardView.swift in Sources */ = {isa = PBXBuildFile; fileRef = 451E27ECFBC59A4EBFE2E330 /* BoardView.swift */; };
		67405789548DAC51086FA63A /* Dictionary.swift in Sources */ = {isa = PBXBuildFile; fileRef = 787D244E2A3B419C2F50BBCD /* Dictionary.swift */; };
		0845A3C55719678685F35BFF /* Settings.swift in Sources */ = {isa = PBXBuildFile; fileRef = FF88B00AF7F1B4BEBB0A539B /* Settings.swift */; };
		121B2F4179DFD18DB91D6010 /* Assets.xcassets in Resources */ = {isa = PBXBuildFile; fileRef = 42D35BC73752536E532BE199 /* Assets.xcassets */; };
		AAED606468EF21A5A28E2E14 /* Launch Assets.xcassets in Resources */ = {isa = PBXBuildFile; fileRef = 42C9961D2E8D6483D524DCCD /* Launch Assets.xcassets */; };
		64A20A4E24FFD992EE6EF9A7 /* words.txt in Resources */ = {isa = PBXBuildFile; fileRef = 5309CEC21C94ACCC36C47F49 /* words.txt */; };
		A7DBA5B7CD7013ADF5E104C5 /* Logging in Frameworks */ = {isa = PBXBuildFile; productRef = 18AA59191130F2B156C85A84 /* Logging */; };
/* End PBXBuildFile section */

/* Begin PBXFileReference section */
		99EC54A9F26E5664C9F8A220 /* WordleApp.swift */ = {isa = PBXFileReference; lastKnownFileType = sourcecode.swift; path = WordleApp.swift; sourceTree = "<group>"; };
		1A4C8F32E95A9FD25E99B0F8 /* ContentView.swift */ = {isa = PBXFileReference; lastKnownFileType = sourcecode.swift; path = ContentView.swift; sourceTree = "<group>"; };
		1A65C6F4088C5C7309386BEC /* Log.swift */ = {isa = PBXFileReference; lastKnownFileType = sourcecode.swift; path = Log.swift; sourceTree = "<group>"; };
		376138E54988EAA0A969BD31 /* Game.swift */ = {isa = PBXFileReference; lastKnownFileType = sourcecode.swift; path = Game.swift; sourceTree = "<group>"; };
		3760A8CD05FF6AABAE494F22 /* Word.swift */ = {isa = PBXFileReference; lastKnownFileType = sourcecode.swift; path = Word.swift; sourceTree = "<group>"; };
		B82E291233BF899086C9974C /* Letter.swift */ = {isa = PBXFileReference; lastKnownFileType = sourcecode.swift; path = Letter.swift; sourceTree = "<group>"; };
		28E7F406E2770D9BBB6AF162 /* Keyboard.swift */ = {isa = PBXFileReference; lastKnownFileType = sourcecode.swift; path = Keyboard.swift; sourceTree = "<group>"; };
		0CA85860DF5DAE170DDD5B4C /* GuessView.swift */ = {isa = PBXFileReference; lastKnownFileType = sourcecode.swift; path = GuessView.swift; sourceTree = "<group>"; };
		3F4CCB809E199A35D578B2CC /* KeyboardView.swift */ = {isa = PBXFileReference; lastKnownFileType = sourcecode.swift; path = KeyboardView.swift; sourceTree = "<group>"; };
		451E27ECFBC59A4EBFE2E330 /* BoardView.swift */ = {isa = PBXFileReference; lastKnownFileType = sourcecode.swift; path = BoardView.swift; sourceTree = "<group>"; };
		787D244E2A3B419C2F50BBCD /* Dictionary.swift */ = {isa = PBXFileReference; lastKnownFileType = sourcecode.swift; path = Dictionary.swift; sourceTree = "<group>"; };
		FF88B00AF7F1B4BEBB0A539B /* Settings.swift */ = {isa = PBXFileReference; lastKnownFileType = sourcecode.swift; path = Settings.swift; sourceTree = "<group>"; };
		42D35BC73752536E532BE199 /* Assets.xcassets */ = {isa = PBXFileReference; lastKnownFileType = folder.assetcatalog; path = Assets.xcassets; sourceTree = "<group>"; };
		42C9961D2E8D6483D524DCCD /* Launch Assets.xcassets */ = {isa = PBXFileReference; lastKnownFileType = folder.assetcatalog; path = "Launch Assets.xcassets"; sourceTree = "<group>"; };
		5309CEC21C94ACCC36C47F49 /* words.txt */ = {isa = PBXFileReference; fileEncoding = 4; lastKnownFileType = text; path = words.txt; sourceTree = "<group>"; };
		EC1771DA72B83DD87900C00C /* Wordle.app */ = {isa = PBXFileReference; explicitFileType = wrapper.application; includeInIndex = 0; path = Wordle.app; sourceTree = BUILT_PRODUCTS_DIR; };
		7ECA4F52C504D53520A02786 /* Info.plist */ = {isa = PBXFileReference; lastKnownFileType = text.plist.xml; path = Info.plist; sourceTree = SOURCE_ROOT; };
/* End PBXFileReference section */

/* Begin PBXFrameworksBuildPhase section */
		20849E7DA979EF34595E79C9 /* Frameworks */ = {
			isa = PBXFrameworksBuildPhase;
			buildActionMask = 2147483647;
			files = (
				A7DBA5B7CD7013ADF5E104C5 /* Logging in Frameworks */,
			);
			runOnlyForDeploymentPostprocessing = 0;
		};
/* End PBXFrameworksBuildPhase section */

/* Begin PBXGroup section */
		FC02FA122DCE5FC1D3433799 = {
			isa = PBXGroup;
			children = (
				8F34A236CBA2383D85B6EEF3 /* Source */,
				DD056CBF9128F8A4D003E3EB /* Resources */,
				59287BCD559D62F9FBD15670 /* Products */,
			);
			sourceTree = "<group>";
		};
		59287BCD559D62F9FBD15670 /* Products */ = {
			isa = PBXGroup;
			children = (
				EC1771DA72B83DD87900C00C /* Wordle.app */,
			);
			name = Products;
			sourceTree = "<group>";
		};
		8F34A236CBA2383D85B6EEF3 /* Source */ = {
			isa = PBXGroup;
			children = (
				99EC54A9F26E5664C9F8A220 /* WordleApp.swift */,
				1A65C6F4088C5C7309386BEC /* Log.swift */,
				28E7F406E2770D9BBB6AF162 /* Keyboard.swift */,
				FF88B00AF7F1B4BEBB0A539B /* Settings.swift */,
				4E3BFCE79121F438AA883446 /* Views */,
				CE5400064AAC3000ED68A11B /* Model */,
				7ECA4F52C504D53520A02786 /* Info.plist */,
			);
			path = Source;
			sourceTree = "<group>";
		};
		4E3BFCE79121F438AA883446 /* Views */ = {
			isa = PBXGroup;
			children = (
				1A4C8F32E95A9FD25E99B0F8 /* ContentView.swift */,
				0CA85860DF5DAE170DDD5B4C /* GuessView.swift */,
				3F4CCB809E199A35D578B2CC /* KeyboardView.swift */,
				451E27ECFBC59A4EBFE2E330 /* BoardView.swift */,
			);
			path = Views;
			sourceTree = "<group>";
		};
		CE5400064AAC3000ED68A11B /* Model */ = {
			isa = PBXGroup;
			children = (
				376138E54988EAA0A969BD31 /* Game.swift */,
				3760A8CD05FF6AABAE494F22 /* Word.swift */,
				B82E291233BF899086C9974C /* Letter.swift */,
				787D244E2A3B419C2F50BBCD /* Dictionary.swift */,
			);
			path = Model;
			sourceTree = "<group>";
		};
		DD056CBF9128F8A4D003E3EB /* Resources */ = {
			isa = PBXGroup;
			children = (
				42D35BC73752536E532BE199 /* Assets.xcassets */,
				42C9961D2E8D6483D524DCCD /* Launch Assets.xcassets */,
				5309CEC21C94ACCC36C47F49 /* words.txt */,
			);
			path = Resources;
			sourceTree = "<group>";
		};
/* End PBXGroup section */

/* Begin PBXNativeTarget section */
		9B22479FEA533348A59D881F /* Wordle */ = {
			isa = PBXNativeTarget;
			buildConfigurationList = 486AEA505A17A1249389F938 /* Build configuration list for PBXNativeTarget "Wordle" */;
			buildPhases = (
				BD7A5339FD4528164D3D3C9D /* Sources */,
				FA52D8C2D2AE543C22B6DD44 /* Resources */,
				20849E7DA979EF34595E79C9 /* Frameworks */,
			);
			buildRules = (
			);
			dependencies = (
			);
			name = Wordle;
			packageProductDependencies = (
				18AA59191130F2B156C85A84 /* Logging */,
			);
			productName = Wordle;
			productReference = EC1771DA72B83DD87900C00C /* Wordle.app */;
			productType = "com.apple.product-type.application";
		};
/* End PBXNativeTarget section */

/* Begin PBXProject section */
		61A3BA0C4CD89A9BF0776647 /* Project object */ = {
			isa = PBXProject;
			attributes = {
				BuildIndependentTargetsInParallel = 1;
				LastUpgradeCheck = 1320;
				TargetAttributes = {
					9B22479FEA533348A59D881F = {
						CreatedOnToolsVersion = 13.2.1;
					};
				};
			};
			buildConfigurationList = 8BFEA3FAFA52EA4FAF3C0463 /* Build configuration list for PBXProject "Wordle" */;
			compatibilityVersion = "Xcode 13.0";
			developmentRegion = en;
			hasScannedForEncodings = 0;
			knownRegions = (
				en,
				Base,
			);
			mainGroup = FC02FA122DCE5FC1D3433799;
			packageReferences = (
				66C12B14AEB6324F3DA1F9BD /* XCRemoteSwiftPackageReference "swift-log" */,
			);
			productRefGroup = 59287BCD559D62F9FBD15670 /* Products */;
			projectDirPath = "";
			projectRoot = "";
			targets = (
				9B22479FEA533348A59D881F /* Wordle */,
			);
		};
/* End PBXProject section */

/* Begin PBXResourcesBuildPhase section */
		FA52D8C2D2AE543C22B6DD44 /* Resources */ = {
			isa = PBXResourcesBuildPhase;
			buildActionMask = 2147483647;
			files = (
				121B2F4179DFD18DB91D6010 /* Assets.xcassets in Resources */,
				AAED606468EF21A5A28E2E14 /* Launch Assets.xcassets in Resources */,
				64A20A4E24FFD992EE6EF9A7 /* words.txt in Resources */,
			);
			runOnlyForDeploymentPostprocessing = 0;
		};
/* End PBXResourcesBuildPhase section */

/* Begin PBXSourcesBuildPhase section */
		BD7A5339FD4528164D3D3C9D /* Sources */ = {
			isa = PBXSourcesBuildPhase;
			buildActionMask = 2147483647;
			files = (
				95E4BB41EEB0A8E86D4C2959 /* WordleApp.swift in Sources */,
				62ADFAF7EDC910F8379C61C6 /* ContentView.swift in Sources */,
				94A2D8F0FE97D3120C462079 /* Log.swift in Sources */,
				B85DC9E12B7580D90035FF47 /* Game.swift in Sources */,
				1252320C7C908A94F80E47F6 /* Word.swift in Sources */,
				7DA529C5810711B68EC0E702 /* Letter.swift in Sources */,
				B10374D0800F8E0542ADA442 /* Keyboard.swift in Sources */,
				FD7FF949CD32BAED8ED94CE6 /* GuessView.swift in Sources */,
				19D20F8DACC791EB5FDC21E9 /* KeyboardView.swift in Sources */,
				AE807817786A98EA884014A4 /* BoardView.swift in Sources */,
				67405789548DAC51086FA63A /* Dictionary.swift in Sources */,
				0845A3C55719678685F35BFF /* Settings.swift in Sources */,
			);
			runOnlyForDeploymentPostprocessing = 0;
		};
/* End PBXSourcesBuildPhase section */

/* Begin XCBuildConfiguration section */
		9F044EA5AA1A9FE867B28BF4 /* Debug */ = {
			isa = XCBuildConfiguration;
			buildSettings = {
				ALWAYS_SEARCH_USER_PATHS = NO;
				CLANG_WARN_DIRECT_OBJC_ISA_USAGE = YES_ERROR;
				CLANG_ENABLE_MODULES = YES;
				IPHONEOS_DEPLOYMENT_TARGET = 15.2;
				SDKROOT = iphoneos;
				SWIFT_VERSION = 5.0;
			};
			name = Debug;
		};
		326BBDEFC1BAA582BF030958 /* Release */ = {
			isa = XCBuildConfiguration;
			buildSettings = {
				ALWAYS_SEARCH_USER_PATHS = NO;
				CLANG_WARN_DIRECT_OBJC_ISA_USAGE = YES_ERROR;
				CLANG_ENABLE_MODULES = YES;
				IPHONEOS_DEPLOYMENT_TARGET = 15.2;
				SDKROOT = iphoneos;
				SWIFT_VERSION = 5.0;
			};
			name = Release;
		};
		3EAF13AE154445337D081920 /* Debug */ = {
			isa = XCBuildConfiguration;
			buildSettings = {
				ASSETCATALOG_COMPILER_APPICON_NAME = AppIcon;
				CODE_SIGN_STYLE = Automatic;
				CURRENT_PROJECT_VERSION = 1;
				LD_RUNPATH_SEARCH_PATHS = (
					"$(inherited)",
					"@executable_path/Frameworks",
				);
				MARKETING_VERSION = 1.0;
				PRODUCT_BUNDLE_IDENTIFIER = com.example.Wordle;
				PRODUCT_NAME = "$(TARGET_NAME)";
				TARGETED_DEVICE_FAMILY = "1,2";
			};
			name = Debug;
		};
		BC948364FEAE623967997A24 /* Release */ = {
			isa = XCBuildConfiguration;
			buildSettings = {
				ASSETCATALOG_COMPILER_APPICON_NAME = AppIcon;
				CODE_SIGN_STYLE = Automatic;
				CURRENT_PROJECT_VERSION = 1;
				LD_RUNPATH_SEARCH_PATHS = (
					"$(inherited)",
					"@executable_path/Frameworks",
				);
				MARKETING_VERSION = 1.0;
				PRODUCT_BUNDLE_IDENTIFIER = com.example.Wordle;
				PRODUCT_NAME = "$(TARGET_NAME)";
				TARGETED_DEVICE_FAMILY = "1,2";
			};
			name = Release;
		};
/* End XCBuildConfiguration section */

/* Begin XCConfigurationList section */
		8BFEA3FAFA52EA4FAF3C0463 /* Build configuration list */ = {
			isa = XCConfigurationList;
			buildConfigurations = (
				9F044EA5AA1A9FE867B28BF4 /* Debug */,
				326BBDEFC1BAA582BF030958 /* Release */,
			);
			defaultConfigurationIsVisible = 0;
			defaultConfigurationName = Release;
		};
		486AEA505A17A1249389F938 /* Build configuration list */ = {
			isa = XCConfigurationList;
			buildConfigurations = (
				3EAF13AE154445337D081920 /* Debug */,
				BC948364FEAE623967997A24 /* Release */,
			);
			defaultConfigurationIsVisible = 0;
			defaultConfigurationName = Release;
		};
/* End XCConfigurationList section */

/* Begin XCRemoteSwiftPackageReference section */
		66C12B14AEB6324F3DA1F9BD /* XCRemoteSwiftPackageReference "swift-log" */ = {
			isa = XCRemoteSwiftPackageReference;
			repositoryURL = "https://github.com/apple/swift-log.git";
			requirement = {
				kind = exactVersion;
				version = 1.4.2;
			};
		};
/* End XCRemoteSwiftPackageReference section */

/* Begin XCSwiftPackageProductDependency section */
		18AA59191130F2B156C85A84 /* Logging */ = {
			isa = XCSwiftPackageProductDependency;
			package = 66C12B14AEB6324F3DA1F9BD /* XCRemoteSwiftPackageReference "swift-log" */;
			productName = Logging;
		};
/* End XCSwiftPackageProductDependency section */
	};
	rootObject = 61A3BA0C4CD89A9BF0776647 /* Project object */;
}
"#;

fn wordle() -> PBXRootObject {
    PBXRootObject::try_from_str(WORDLE).unwrap()
}

#[test]
fn test_demo1_representation() {
    let project = wordle();
    let targets = project.objects().targets();

    assert_eq!(1, targets.len());
    assert_eq!(PBXTargetKind::Native, targets[0].kind);
    assert_eq!(Some(String::from("Wordle")), targets[0].product_name);
    assert_eq!(Some(String::from("Wordle")), targets[0].name);
    assert_eq!(PBXProductType::Application, targets[0].product_type);
    assert_eq!(None, targets[0].build_tool_path);
    assert_eq!(None, targets[0].build_arguments_string);
    assert_eq!(None, targets[0].build_working_directory);
    assert_eq!(None, targets[0].pass_build_settings_in_environment);
    assert_eq!(3, targets[0].build_phases.len());
    assert_eq!(
        vec![
            (PBXBuildPhaseKind::Sources, 12),
            (PBXBuildPhaseKind::Resources, 3),
            (PBXBuildPhaseKind::Frameworks, 1)
        ],
        targets[0]
            .build_phases
            .iter()
            .map(|phase| (phase.kind, phase.files.len()))
            .collect::<Vec<_>>()
    );

    assert_eq!(1, project.objects().projects().len());

    let root_group = project.root_group().unwrap();
    assert_eq!(17, project.objects().files().len());
    assert_eq!(3, root_group.children.len());
    assert_eq!(None, root_group.name);
    assert_eq!(None, root_group.path);
}

#[test]
fn get_root_full_path() {
    let project = wordle();
    let projects = project.objects().projects();
    let main_group = &projects.first().unwrap().main_group;

    let root = "/path/to/project";
    let main_group_full_path = main_group.full_path(project.objects(), root);
    assert_eq!(main_group_full_path.unwrap(), root);
}

#[test]
fn get_subgroup_full_path() {
    let root = "/path/to/project";
    let project = wordle();

    let source_group = project
        .objects()
        .groups()
        .into_iter()
        .find(|o| o.path.as_ref().map(|p| p == "Source").unwrap_or_default())
        .unwrap();

    let source_group_full_path = source_group.full_path(project.objects(), root);
    assert_eq!(source_group_full_path.unwrap(), format!("{root}/Source"));
}

#[test]
fn get_file_full_path() {
    let root = "/path/to/project";
    let project = wordle();

    let expected_file_path = [root, "Source", "Views", "GuessView.swift"].join("/");

    let file = project
        .objects()
        .files()
        .into_iter()
        .find(|fs_reference| {
            fs_reference
                .path
                .as_ref()
                .map(|name| name == "GuessView.swift")
                .unwrap_or_default()
        })
        .unwrap();

    assert_eq!(file.full_path(project.objects(), root).unwrap(), expected_file_path)
}

#[test]
fn root_fields() {
    let project = wordle();
    assert_eq!(project.archive_version(), 1);
    assert_eq!(project.object_version(), 55);
    assert_eq!(project.classes().len(), 0);
    assert_eq!(project.root_object_reference(), "61A3BA0C4CD89A9BF0776647");
    assert_eq!(project.root_project().unwrap().id, "61A3BA0C4CD89A9BF0776647");
}

#[test]
fn project_fields() {
    let root = wordle();
    let project = root.root_project().unwrap();
    assert_eq!(project.name, None);
    assert_eq!(project.compatibility_version, "Xcode 13.0");
    assert_eq!(project.development_region, Some(String::from("en")));
    assert_eq!(project.has_scanned_for_encodings, 0);
    assert_eq!(project.known_regions, vec![String::from("en"), String::from("Base")]);
    assert_eq!(project.project_dir_path, "");
    assert_eq!(project.project_roots, vec![String::new()]);
    assert_eq!(project.main_group.id, "FC02FA122DCE5FC1D3433799");
    assert_eq!(project.main_group.kind, PBXFSReferenceKind::FileGroup);
    assert_eq!(project.main_group.source_tree, PBXSourceTree::Group);
    assert_eq!(project.targets.len(), 1);
    assert_eq!(project.targets[0].id, "9B22479FEA533348A59D881F");
    assert_eq!(project.build_configuration_list.id, "8BFEA3FAFA52EA4FAF3C0463");
    assert_eq!(project.build_configuration_list.build_configurations.len(), 2);
    assert_eq!(project.build_configuration_list.build_configurations[0].name, "Debug");
    assert!(!project.build_configuration_list.default_configuration_is_visible);
    assert_eq!(
        project.build_configuration_list.default_configuration_name,
        Some(String::from("Release"))
    );
    assert_eq!(project.target_attributes.len(), 1);
    assert_eq!(project.target_attributes[0].0, "9B22479FEA533348A59D881F");
    assert_eq!(
        project.target_attributes[0].1.get_string("CreatedOnToolsVersion"),
        Some(&String::from("13.2.1"))
    );
    assert_eq!(project.attributes.unwrap().get_number("LastUpgradeCheck"), Some(&1320));
    assert_eq!(project.packages.len(), 1);
    assert_eq!(
        project.packages[0].repository_url,
        Some(String::from("https://github.com/apple/swift-log.git"))
    );
    assert_eq!(
        project.packages[0].version_requirement,
        Some(XCVersionRequirement::Exact(String::from("1.4.2")))
    );
}

#[test]
fn end_to_end_minimal_project() {
    let text = "// !$*UTF8*$!
{
    archiveVersion = 1;
    classes = { };
    objectVersion = 56;
    objects = {
        PR = { isa = PBXProject; attributes = { }; buildConfigurationList = CL; compatibilityVersion = \"Xcode 14.0\";
               hasScannedForEncodings = 0; knownRegions = (en, ); mainGroup = G; projectDirPath = \"\"; targets = (T, ); };
        T = { isa = PBXNativeTarget; name = App; productType = \"com.apple.product-type.application\"; buildPhases = (S, ); };
        S = { isa = PBXSourcesBuildPhase; files = (B1, B2, ); };
        B1 = { isa = PBXBuildFile; fileRef = F1; };
        B2 = { isa = PBXBuildFile; fileRef = F2; };
        F1 = { isa = PBXFileReference; path = a.swift; sourceTree = \"<group>\"; };
        F2 = { isa = PBXFileReference; path = b.swift; sourceTree = \"<group>\"; };
        G = { isa = PBXGroup; children = (F1, F2, ); sourceTree = \"<group>\"; };
        CL = { isa = XCConfigurationList; buildConfigurations = ( ); defaultConfigurationIsVisible = 0; };
    };
    rootObject = PR;
}
";
    let root = PBXRootObject::try_from_str(text).unwrap();
    let project = root.root_project().unwrap();
    let targets = &project.targets;
    assert_eq!(targets.len(), 1);
    assert_eq!(targets[0].name, Some(String::from("App")));
    assert_eq!(targets[0].build_phases[0].files.len(), 2);
    assert_eq!(targets[0].build_phases[0].build_action_mask, 2147483647);
    assert!(!targets[0].build_phases[0].run_only_for_deployment_postprocessing);
    assert_eq!(root.objects().files().len(), 2);
    assert_eq!(root.objects().targets().len(), 1);
    let file = root.objects().get_file("F2").unwrap();
    assert_eq!(file.full_path(root.objects(), "/a/b").unwrap(), "/a/b/b.swift");
    assert_eq!(root.root_group().unwrap().full_path(root.objects(), "/a/b").unwrap(), "/a/b");
}

#[test]
fn missing_main_group_is_an_error() {
    let text = "{ archiveVersion = 1; objectVersion = 56; rootObject = PR; objects = {
        PR = { isa = PBXProject; attributes = { }; buildConfigurationList = CL; compatibilityVersion = X;
               hasScannedForEncodings = 0; knownRegions = (en, ); projectDirPath = X; targets = ( ); };
        CL = { isa = XCConfigurationList; defaultConfigurationIsVisible = 0; };
    }; }";
    let root = PBXRootObject::try_from_str(text).unwrap();
    let objects: &PBXObjectCollection = root.objects();
    assert!(objects.get_project("PR").is_none());
    assert!(root.root_project().is_none());
    let fields = objects.object("PR").unwrap();
    let err = xcodeproj::project::PBXProject::as_pbx_object(String::from("PR"), fields, objects)
        .unwrap_err();
    assert!(err.is_missing_field("mainGroup"));
    assert!(matches!(
        err,
        PBXError::MissingField { key, object: Some(id) } if key == "mainGroup" && id == "PR"
    ));
}

#[test]
fn test_extract_string() {
    let project = wordle();
    let development_region = project.extract_string("developmentRegion");
    assert_eq!(Some(&String::from("en")), development_region);
}

#[test]
fn test_extract_value() {
    let text = "// !$*UTF8*$!
{
	archiveVersion = 1;
	classes = {
	};
	objectVersion = 46;
	objects = {
		A0D495411ADE8368000B98EC /* Project object */ = {
			isa = PBXProject;
			attributes = {
				LastUpgradeCheck = 0630;
				ORGANIZATIONNAME = Example;
			};
			compatibilityVersion = \"Xcode 3.2\";
			developmentRegion = English;
			hasScannedForEncodings = 0;
			knownRegions = (
				en,
				Base,
			);
			mainGroup = A0D495401ADE8368000B98EC;
			projectDirPath = \"\";
			projectRoot = \"\";
			targets = (
				A0D495491ADE8368000B98EC /* showcase */,
				8EF0E26B1B340CF900CF1FCC /* showcaseTests */,
			);
		};
	};
	rootObject = A0D495411ADE8368000B98EC /* Project object */;
}
";
    let project = PBXRootObject::try_from_str(text).unwrap();
    let has_scanned_for_encodings = project.extract_value("hasScannedForEncodings");
    let targets = project.extract_value("targets");
    assert_eq!(Some(&PBXValue::Number(0)), has_scanned_for_encodings);
    assert_eq!(
        Some(&PBXValue::Vec(PBXVec(vec![
            PBXValue::String("A0D495491ADE8368000B98EC".into()),
            PBXValue::String("8EF0E26B1B340CF900CF1FCC".into())
        ]))),
        targets
    );
    assert_eq!(project.extract_value("ORGANIZATIONNAME"), Some(&PBXValue::String("Example".into())));
    assert_eq!(project.extract_value("A0D495411ADE8368000B98EC"), None);
    assert_eq!(project.extract_string("hasScannedForEncodings"), None);
}

#[test]
fn queries_by_identifier() {
    let project = wordle();
    let objects = project.objects();
    assert!(objects.get_target("9B22479FEA533348A59D881F").is_some());
    assert!(objects.get_target("FC02FA122DCE5FC1D3433799").is_none());
    assert!(objects.get_target("no such object").is_none());
    assert!(objects.get_project("61A3BA0C4CD89A9BF0776647").is_some());
    assert!(objects.get_group("8F34A236CBA2383D85B6EEF3").is_some());
    assert!(objects.get_file("8F34A236CBA2383D85B6EEF3").is_none());
    assert!(objects.get_file("0CA85860DF5DAE170DDD5B4C").is_some());
    assert!(objects.get_group("0CA85860DF5DAE170DDD5B4C").is_none());
    assert!(objects.get_fs_object("0CA85860DF5DAE170DDD5B4C").is_some());
    assert!(objects.get_swift_package_reference("66C12B14AEB6324F3DA1F9BD").is_some());
    assert!(objects.get_build_phase("BD7A5339FD4528164D3D3C9D").unwrap().is_sources());
    assert!(objects.get_build_file("94A2D8F0FE97D3120C462079").is_some());
    assert!(objects.get_build_rule("94A2D8F0FE97D3120C462079").is_none());
    let product = objects.get_swift_package_product_dependency("18AA59191130F2B156C85A84").unwrap();
    assert_eq!(product.product_name, "Logging");
    assert_eq!(product.package.unwrap().id, "66C12B14AEB6324F3DA1F9BD");
}

#[test]
fn queries_by_kind_and_name() {
    let project = wordle();
    let objects = project.objects();
    assert_eq!(objects.groups().len(), 6);
    assert_eq!(objects.build_phases().len(), 3);
    assert_eq!(objects.build_files().len(), 16);
    assert_eq!(objects.build_configurations().len(), 4);
    assert_eq!(objects.build_rules().len(), 0);
    assert_eq!(objects.swift_package_references().len(), 1);
    assert_eq!(objects.swift_package_product_dependencies().len(), 1);
    assert_eq!(objects.get_target_by_name("Wordle").unwrap().id, "9B22479FEA533348A59D881F");
    assert!(objects.get_target_by_name("wordle").is_none());
    assert_eq!(objects.get_group_by_name_or_path("Products").unwrap().id, "59287BCD559D62F9FBD15670");
    assert_eq!(objects.get_group_by_name_or_path("Views").unwrap().id, "4E3BFCE79121F438AA883446");
    assert!(objects.get_group_by_name_or_path("GuessView.swift").is_none());
    // the order of the collection is the order of the file
    let phases = objects.build_phases();
    assert_eq!(
        phases.iter().map(|p| p.kind).collect::<Vec<_>>(),
        vec![
            PBXBuildPhaseKind::Frameworks,
            PBXBuildPhaseKind::Resources,
            PBXBuildPhaseKind::Sources
        ]
    );
}

#[test]
fn file_reference_fields() {
    let project = wordle();
    let objects = project.objects();
    let words = objects
        .files()
        .into_iter()
        .find(|f| f.path.as_deref() == Some("words.txt"))
        .unwrap();
    assert_eq!(words.file_encoding(), Some(4));
    assert_eq!(words.last_known_file_type(), Some(&String::from("text")));
    assert_eq!(words.explicit_file_type(), None);
    assert_eq!(*words.source_tree(), PBXSourceTree::Group);
    assert!(words.is_file());
    assert!(!words.is_group());
    assert!(words.children.is_empty());
    let app = objects.get_file("EC1771DA72B83DD87900C00C").unwrap();
    assert_eq!(app.include_in_index(), Some(false));
    assert_eq!(*app.source_tree(), PBXSourceTree::BuildProductsDir);
    let source = objects.get_group("8F34A236CBA2383D85B6EEF3").unwrap();
    assert!(source.is_file_group());
    assert_eq!(source.children.len(), 7);
    assert_eq!(source.children_references().len(), 7);
    assert_eq!(source.children_references()[0], "99EC54A9F26E5664C9F8A220");
    // a group has no fields of a file
    assert_eq!(source.file_encoding(), None);
    let mut copy = objects.get_group("8F34A236CBA2383D85B6EEF3").unwrap();
    assert!(copy == source);
    copy.set_name(Some(String::from("Sources")));
    assert_eq!(copy.name(), Some(&String::from("Sources")));
    assert!(copy != source);
    copy.set_name(None);
    copy.set_path(Some(String::from("Source")));
    assert!(copy == source);
    copy.set_uses_tabs(Some(true));
    assert_eq!(copy.uses_tabs(), Some(true));
    copy.set_indent_width(Some(4));
    assert_eq!(copy.indent_width(), Some(4));
    copy.set_kind(PBXFSReferenceKind::VariantGroup);
    assert!(copy.is_varient_group());
    copy.set_source_tree(PBXSourceTree::Absolute);
    assert_eq!(copy.full_path(objects, "/r").unwrap(), "Source");
}

#[test]
fn file_reference_setters() {
    let project = wordle();
    let mut file = project.objects().get_file("0CA85860DF5DAE170DDD5B4C").unwrap();
    let same = project.objects().get_file("0CA85860DF5DAE170DDD5B4C").unwrap();
    file.set_include_in_index(Some(true));
    assert_eq!(file.include_in_index(), Some(true));
    file.set_tab_width(Some(8));
    assert_eq!(file.tab_width(), Some(8));
    file.set_wraps_lines(Some(false));
    assert_eq!(file.wraps_lines(), Some(false));
    file.set_file_encoding(Some(4));
    assert_eq!(file.file_encoding(), Some(4));
    file.set_explicit_file_type(Some("sourcecode.swift".into()));
    assert_eq!(file.explicit_file_type(), Some(&"sourcecode.swift".to_string()));
    file.set_last_known_file_type(None);
    assert_eq!(file.last_known_file_type(), None);
    file.set_line_ending(Some(1));
    assert_eq!(file.line_ending(), Some(1));
    file.set_language_specification_identifier(Some("a".into()));
    assert_eq!(file.language_specification_identifier(), Some(&"a".to_string()));
    file.set_xc_language_specification_identifier(Some("b".into()));
    assert_eq!(file.xc_language_specification_identifier(), Some(&"b".to_string()));
    file.set_plist_structure_definition_identifier(Some("c".into()));
    assert_eq!(file.plist_structure_definition_identifier(), Some(&"c".to_string()));
    file.set_current_version_reference(Some("d".into()));
    assert_eq!(file.current_version_reference(), Some(&"d".to_string()));
    file.set_version_group_type(Some("e".into()));
    assert_eq!(file.version_group_type(), Some(&"e".to_string()));
    assert_eq!(file.path(), same.path());
    assert_eq!(file.kind(), same.kind());
    assert_eq!(file.id, same.id);
    assert!(file != same);
}

#[test]
fn project_extras() {
    let root = wordle();
    let project = root.root_project().unwrap();
    assert_eq!(project.products_group.as_ref().unwrap().id, "59287BCD559D62F9FBD15670");
    assert_eq!(project.products_group.as_ref().unwrap().name, Some(String::from("Products")));
    let attributes = project.get_attributes_for_target_reference("9B22479FEA533348A59D881F").unwrap();
    assert_eq!(attributes.get_string("CreatedOnToolsVersion"), Some(&String::from("13.2.1")));
    assert!(project.get_attributes_for_target_reference("FC02FA122DCE5FC1D3433799").is_none());
    let package = &project.packages[0];
    assert_eq!(package.name(), Some("swift-log.git"));
    assert_eq!(package.version_requirement(), Some(&XCVersionRequirement::Exact("1.4.2".into())));
    let mut other = root.objects().get_swift_package_reference("66C12B14AEB6324F3DA1F9BD").unwrap();
    assert!(other == *package);
    other.set_version_requirement(Some(XCVersionRequirement::Branch("main".into())));
    assert!(other != *package);
    assert_eq!(other.version_requirement(), Some(&XCVersionRequirement::Branch("main".into())));
    other.set_version_requirement(None);
    assert_eq!(other.version_requirement(), None);
    other.repository_url = None;
    assert_eq!(other.name(), None);
    other.repository_url = Some("swift-log".into());
    assert_eq!(other.name(), Some("swift-log"));
}

#[test]
fn version_requirement_round_trip() {
    let all = [
        XCVersionRequirement::UpToNextMajorVersion("1.0.0".into()),
        XCVersionRequirement::UpToNextMinorVersion("1.2.0".into()),
        XCVersionRequirement::Range("1.0.0".into(), "2.0.0".into()),
        XCVersionRequirement::Exact("1.4.2".into()),
        XCVersionRequirement::Branch("main".into()),
        XCVersionRequirement::Revision("abc123".into()),
    ];
    for requirement in all {
        let value = requirement.to_value();
        assert_eq!(XCVersionRequirement::try_from_value(&value).unwrap(), requirement);
        assert_eq!(requirement.clone(), requirement);
    }
    let value = XCVersionRequirement::Range("1.0.0".into(), "2.0.0".into()).to_value();
    let fields = value.as_object().unwrap();
    assert_eq!(fields.get_string("kind"), Some(&String::from("versionRange")));
    assert_eq!(fields.get_string("minimumVersion"), Some(&String::from("1.0.0")));
    assert_eq!(fields.get_string("maximumVersion"), Some(&String::from("2.0.0")));
}

#[test]
fn project_with_dangling_references() {
    let text = "{ archiveVersion = 1; objectVersion = 56; rootObject = A; objects = {
        A = { isa = PBXProject; attributes = { }; buildConfigurationList = CL; compatibilityVersion = X;
              hasScannedForEncodings = 0; knownRegions = (en, ); mainGroup = GONE; projectDirPath = X; targets = ( ); };
        B = { isa = PBXProject; attributes = { }; buildConfigurationList = GONE; compatibilityVersion = X;
              hasScannedForEncodings = 0; knownRegions = (en, ); mainGroup = G; projectDirPath = X; targets = ( ); };
        C = { isa = PBXProject; attributes = { }; buildConfigurationList = G; compatibilityVersion = X;
              hasScannedForEncodings = 0; knownRegions = (en, ); mainGroup = G; projectDirPath = X; targets = ( ); };
        D = { isa = PBXProject; attributes = { }; buildConfigurationList = CL; compatibilityVersion = X;
              hasScannedForEncodings = 0; knownRegions = (en, ); mainGroup = G; projectDirPath = X; };
        E = { isa = PBXProject; attributes = { }; buildConfigurationList = CL; compatibilityVersion = X;
              hasScannedForEncodings = 0; knownRegions = (en, ); mainGroup = G; projectDirPath = X;
              targets = (GONE, G, ); packageReferences = (GONE, ); productRefGroup = GONE; };
        F = { isa = PBXProject; buildConfigurationList = CL; compatibilityVersion = X;
              hasScannedForEncodings = 0; knownRegions = (en, ); mainGroup = G; projectDirPath = X; targets = ( ); };
        G = { isa = PBXGroup; };
        CL = { isa = XCConfigurationList; defaultConfigurationIsVisible = 0; };
    }; }";
    let root = PBXRootObject::try_from_str(text).unwrap();
    let objects = root.objects();
    let build = |id: &str| {
        xcodeproj::project::PBXProject::as_pbx_object(id.to_string(), objects.object(id).unwrap(), objects)
    };
    assert!(matches!(build("A"), Err(PBXError::DanglingReference { id }) if id == "GONE"));
    assert!(matches!(build("B"), Err(PBXError::DanglingReference { id }) if id == "GONE"));
    assert!(matches!(build("C"), Err(PBXError::DanglingReference { id }) if id == "G"));
    assert!(build("D").unwrap_err().is_missing_field("targets"));
    let project = build("E").unwrap();
    assert!(project.attributes.is_some());
    assert!(project.targets.is_empty());
    assert!(project.packages.is_empty());
    assert!(project.products_group.is_none());
    assert!(project.project_roots.is_empty());
    assert!(project.target_attributes.is_empty());
    let bare = build("F").unwrap();
    assert!(bare.attributes.is_none());
    assert!(bare.target_attributes.is_empty());
    assert_eq!(objects.projects().len(), 2);
    assert_eq!(root.root_project().map(|p| p.id), None);
}
