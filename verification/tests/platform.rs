use xcodeproj::platform::PBXTargetPlatform;
use xcodeproj::root::PBXRootObject;

fn load(project_settings: &str, objects: &str) -> PBXRootObject {
    let text = format!(
        "{{ archiveVersion = 1; objectVersion = 56; rootObject = P; objects = {{
            P = {{ isa = PBXProject; attributes = {{ }}; buildConfigurationList = PCL; compatibilityVersion = X;
                  hasScannedForEncodings = 0; knownRegions = (en, ); mainGroup = MAIN; projectDirPath = X; targets = (T, ); }};
            MAIN = {{ isa = PBXGroup; children = (XC, ); sourceTree = \"<group>\"; }};
            XC = {{ isa = PBXFileReference; path = Base.xcconfig; sourceTree = \"<group>\"; }};
            PCL = {{ isa = XCConfigurationList; buildConfigurations = (PD, ); defaultConfigurationIsVisible = 0; }};
            PD = {{ isa = XCBuildConfiguration; name = Debug; buildSettings = {{ {project_settings} }}; }};
            {objects}
        }}; }}"
    );
    PBXRootObject::try_from_str(&text).unwrap()
}

fn platform(root: &PBXRootObject) -> PBXTargetPlatform {
    let target = root.objects().get_target("T").unwrap();
    target.info(root.objects()).platform
}

#[test]
fn sdkroot_of_the_target() {
    let root = load(
        "SDKROOT = macosx;",
        "T = { isa = PBXNativeTarget; name = App; productType = x; buildConfigurationList = TCL; };
         TCL = { isa = XCConfigurationList; buildConfigurations = (TD, TR, ); defaultConfigurationIsVisible = 0; };
         TD = { isa = XCBuildConfiguration; name = Debug; buildSettings = { OTHER = 1; }; };
         TR = { isa = XCBuildConfiguration; name = Release; buildSettings = { SDKROOT = appletvos; }; };",
    );
    assert_eq!(platform(&root), PBXTargetPlatform::TvOS);
    let target = root.objects().get_target("T").unwrap();
    let info = target.info(root.objects());
    assert_eq!(info.configurations, vec!["Debug".to_string(), "Release".to_string()]);
    let list = root.objects().get_configuration_list("TCL").unwrap();
    assert_eq!(list.extract_sdkroot_from_children(root.objects()), Some("appletvos".to_string()));
}

#[test]
fn first_sdkroot_is_taken() {
    let root = load(
        "",
        "T = { isa = PBXNativeTarget; name = App; productType = x; buildConfigurationList = TCL; };
         TCL = { isa = XCConfigurationList; buildConfigurations = (A, B, C, ); defaultConfigurationIsVisible = 0; };
         A = { isa = XCBuildConfiguration; name = A; buildSettings = { SDKROOT = watchos; }; };
         B = { isa = XCBuildConfiguration; name = B; buildSettings = { SDKROOT = iphoneos; }; };
         C = { isa = XCBuildConfiguration; name = C; buildSettings = { SDKROOT = watchos; }; };",
    );
    assert_eq!(platform(&root), PBXTargetPlatform::WatchOS);
}

#[test]
fn sdkroot_of_a_shared_base_configuration() {
    let root = load(
        "",
        "T = { isa = PBXNativeTarget; name = App; productType = x; buildConfigurationList = TCL; };
         TCL = { isa = XCConfigurationList; buildConfigurations = (TD, TR, ); defaultConfigurationIsVisible = 0; };
         TD = { isa = XCBuildConfiguration; name = Debug; baseConfigurationReference = XC; buildSettings = { }; };
         TR = { isa = XCBuildConfiguration; name = Release; baseConfigurationReference = XC; buildSettings = { }; };
         SHARED = { isa = XCBuildConfiguration; name = Shared; baseConfigurationReference = XC; buildSettings = { SDKROOT = iphoneos; }; };",
    );
    assert_eq!(platform(&root), PBXTargetPlatform::IOS);
    let based = root.objects().get_build_configurations_by_base_id("XC");
    assert_eq!(
        based.iter().map(|c| c.id.as_str()).collect::<Vec<_>>(),
        vec!["TD", "TR", "SHARED"]
    );
    assert!(root.objects().get_build_configurations_by_base_id("MAIN").is_empty());
}

#[test]
fn sdkroot_of_the_project() {
    let root = load(
        "SDKROOT = xros;",
        "T = { isa = PBXNativeTarget; name = App; productType = x; buildConfigurationList = TCL; };
         TCL = { isa = XCConfigurationList; buildConfigurations = (TD, ); defaultConfigurationIsVisible = 0; };
         TD = { isa = XCBuildConfiguration; name = Debug; buildSettings = { }; };",
    );
    assert_eq!(platform(&root), PBXTargetPlatform::XrOS);
    // a target without configurations has the platform of the project too
    let root = load("SDKROOT = macosx;", "T = { isa = PBXNativeTarget; name = App; productType = x; };");
    assert_eq!(platform(&root), PBXTargetPlatform::MacOS);
    let target = root.objects().get_target("T").unwrap();
    assert!(target.info(root.objects()).configurations.is_empty());
}

#[test]
fn no_sdkroot_anywhere() {
    let root = load(
        "",
        "T = { isa = PBXNativeTarget; name = App; productType = x; buildConfigurationList = TCL; };
         TCL = { isa = XCConfigurationList; buildConfigurations = (TD, ); defaultConfigurationIsVisible = 0; };
         TD = { isa = XCBuildConfiguration; name = Debug; buildSettings = { }; };",
    );
    assert_eq!(platform(&root), PBXTargetPlatform::Unknown);
    assert!(platform(&root).is_unknown());
    let list = root.objects().get_configuration_list("TCL").unwrap();
    assert_eq!(list.extract_sdkroot_from_children(root.objects()), None);
}

#[test]
fn sdkroot_that_is_no_platform() {
    let root = load(
        "SDKROOT = iphoneos;",
        "T = { isa = PBXNativeTarget; name = App; productType = x; buildConfigurationList = TCL; };
         TCL = { isa = XCConfigurationList; buildConfigurations = (TD, ); defaultConfigurationIsVisible = 0; };
         TD = { isa = XCBuildConfiguration; name = Debug; buildSettings = { SDKROOT = iphonesimulator; }; };",
    );
    assert_eq!(platform(&root), PBXTargetPlatform::Unknown);
}

#[test]
fn platforms_by_name() {
    assert_eq!(PBXTargetPlatform::from_sdk_root("iphoneos"), PBXTargetPlatform::IOS);
    assert_eq!(PBXTargetPlatform::from_sdk_root("macosx"), PBXTargetPlatform::MacOS);
    assert_eq!(PBXTargetPlatform::from_sdk_root("appletvos"), PBXTargetPlatform::TvOS);
    assert_eq!(PBXTargetPlatform::from_sdk_root("watchos"), PBXTargetPlatform::WatchOS);
    assert_eq!(PBXTargetPlatform::from_sdk_root("xros"), PBXTargetPlatform::XrOS);
    assert_eq!(PBXTargetPlatform::from_sdk_root("iOS"), PBXTargetPlatform::Unknown);
    assert_eq!(PBXTargetPlatform::from_sdk_root(""), PBXTargetPlatform::Unknown);
    for name in ["iOS", "watchOS", "tvOS", "macOS", "xrOS"] {
        assert_eq!(PBXTargetPlatform::from_str(name).to_string(), name);
    }
    assert_eq!(PBXTargetPlatform::from_str("linux"), PBXTargetPlatform::Unknown);
    assert_eq!(PBXTargetPlatform::Unknown.to_string(), "");
    assert_eq!(PBXTargetPlatform::default(), PBXTargetPlatform::Unknown);
}

#[test]
fn platforms_by_identifier() {
    let platform = PBXTargetPlatform::from_identifer;
    assert_eq!(platform("com.apple.CoreSimulator.SimRuntime.iOS-17-0"), PBXTargetPlatform::IOS);
    assert_eq!(platform("com.apple.CoreSimulator.SimRuntime.watchOS-10-2"), PBXTargetPlatform::WatchOS);
    assert_eq!(platform("com.apple.CoreSimulator.SimRuntime.tvOS-17-0"), PBXTargetPlatform::TvOS);
    assert_eq!(platform("com.apple.CoreSimulator.SimRuntime.xrOS-1-0"), PBXTargetPlatform::XrOS);
    assert_eq!(platform("macOS"), PBXTargetPlatform::MacOS);
    assert_eq!(platform("iOS-17-0"), PBXTargetPlatform::IOS);
    assert_eq!(platform("iOScom.apple.CoreSimulator.SimRuntime.-1"), PBXTargetPlatform::IOS);
    assert_eq!(
        platform("com.apple.CoreSimulator.SimRuntime.com.apple.CoreSimulator.SimRuntime.tvOS"),
        PBXTargetPlatform::TvOS
    );
    assert_eq!(platform("com.apple.CoreSimulator.SimRuntime.ios-17-0"), PBXTargetPlatform::Unknown);
    assert_eq!(platform("com.apple.CoreSimulator.SimRuntime"), PBXTargetPlatform::Unknown);
    assert_eq!(platform("-iOS"), PBXTargetPlatform::Unknown);
    assert_eq!(platform(""), PBXTargetPlatform::Unknown);
}
