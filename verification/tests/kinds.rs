use xcodeproj::kind::{PBXBuildPhaseKind, PBXFSReferenceKind, PBXObjectKind, PBXTargetKind};

#[test]
fn known_kinds_round_trip() {
    let names = [
        "PBXBuildFile",
        "PBXFileReference",
        "PBXLegacyTarget",
        "PBXNativeTarget",
        "PBXAggregateTarget",
        "PBXProject",
        "PBXGroup",
        "PBXHeadersBuildPhase",
        "PBXFrameworksBuildPhase",
        "PBXResourcesBuildPhase",
        "PBXShellScriptBuildPhase",
        "PBXSourcesBuildPhase",
        "PBXCopyFilesBuildPhase",
        "PBXRezBuildPhase",
        "XCConfigurationList",
        "PBXTargetDependency",
        "PBXVariantGroup",
        "XCBuildConfiguration",
        "PBXContainerItemProxy",
        "XCVersionGroup",
        "PBXBuildRule",
        "XCRemoteSwiftPackageReference",
        "XCSwiftPackageProductDependency",
    ];
    for name in names {
        let kind = PBXObjectKind::from_isa(name);
        assert!(!kind.is_unknown(), "{name}");
        assert_eq!(kind.to_string(), name);
    }
}

#[test]
fn unknown_kind_is_kept() {
    let kind = PBXObjectKind::from_isa("SomeFutureXcodeKind");
    assert_eq!(kind, PBXObjectKind::Unknown(String::from("SomeFutureXcodeKind")));
    assert_eq!(kind.to_string(), "SomeFutureXcodeKind");
}

#[test]
fn grouped_kinds() {
    assert_eq!(
        PBXObjectKind::from_isa("PBXNativeTarget"),
        PBXObjectKind::PBXTarget(PBXTargetKind::Native)
    );
    assert_eq!(
        PBXObjectKind::from_isa("PBXShellScriptBuildPhase"),
        PBXObjectKind::PBXBuildPhase(PBXBuildPhaseKind::RunScript)
    );
    assert_eq!(
        PBXObjectKind::from_isa("PBXGroup"),
        PBXObjectKind::PBXFSReference(PBXFSReferenceKind::FileGroup)
    );
    assert!(PBXObjectKind::from_isa("PBXGroup").is_pbx_fsreference());
    assert!(PBXFSReferenceKind::VariantGroup.is_group());
    assert!(!PBXFSReferenceKind::File.is_group());
    assert_eq!(PBXBuildPhaseKind::try_from_name("Run Script"), Some(PBXBuildPhaseKind::RunScript));
    assert_eq!(PBXBuildPhaseKind::try_from_name("Nothing"), None);
    assert_eq!(PBXBuildPhaseKind::CarbonResources.to_string(), "Rez");
}

#[test]
fn kinds_one_by_one() {
    let kind = PBXObjectKind::from_isa;
    assert!(kind("PBXBuildFile").is_build_file() && kind("PBXBuildFile").is_pbx_build_file());
    assert!(kind("PBXFileReference").is_file_reference());
    assert!(kind("PBXLegacyTarget").is_legacy_target());
    assert!(kind("PBXNativeTarget").is_native_target());
    assert!(kind("PBXAggregateTarget").is_aggregate_target());
    assert!(kind("PBXProject").is_project() && kind("PBXProject").is_pbx_project());
    assert!(kind("PBXGroup").is_group());
    assert!(kind("PBXHeadersBuildPhase").is_headers_build_phase());
    assert!(kind("PBXFrameworksBuildPhase").is_frameworks_build_phase());
    assert!(kind("XCConfigurationList").is_configuration_list());
    assert!(kind("XCConfigurationList").is_xc_configuration_list());
    assert!(kind("PBXResourcesBuildPhase").is_resources_build_phase());
    assert!(kind("PBXShellScriptBuildPhase").is_shell_script_build_phase());
    assert!(kind("PBXSourcesBuildPhase").is_sources_build_phase());
    assert!(kind("PBXTargetDependency").is_target_dependency());
    assert!(kind("PBXTargetDependency").is_pbx_target_dependency());
    assert!(kind("PBXVariantGroup").is_variant_group());
    assert!(kind("XCBuildConfiguration").is_build_configuration());
    assert!(kind("XCBuildConfiguration").is_xc_build_configuration());
    assert!(kind("PBXCopyFilesBuildPhase").is_copy_files_build_phase());
    assert!(kind("PBXContainerItemProxy").is_container_item_proxy());
    assert!(kind("PBXContainerItemProxy").is_pbx_container_item_proxy());
    assert!(kind("XCVersionGroup").is_version_group());
    assert!(kind("PBXRezBuildPhase").is_rez_build_phase());
    assert!(kind("PBXBuildRule").is_build_rule() && kind("PBXBuildRule").is_pbx_build_rule());
    assert!(kind("XCRemoteSwiftPackageReference").is_remote_swift_package_reference());
    assert!(kind("XCRemoteSwiftPackageReference").is_xc_remote_swift_package_reference());
    assert!(kind("XCSwiftPackageProductDependency").is_swift_package_product_dependency());
    assert!(kind("XCSwiftPackageProductDependency").is_xc_swift_package_product_dependency());
    assert!(kind("PBXReferenceProxy").is_unknown());
    assert!(kind("pbxproject").is_unknown());
    assert!(kind("").is_unknown());
    assert!(!kind("PBXGroup").is_variant_group());
    assert!(!kind("PBXNativeTarget").is_legacy_target());
    assert!(kind("PBXNativeTarget").is_pbx_target());
    assert!(kind("PBXRezBuildPhase").is_pbx_build_phase());
    assert!(!kind("PBXProject").is_pbx_target());
}

#[test]
fn kinds_inside() {
    let native = PBXObjectKind::PBXTarget(PBXTargetKind::Native);
    assert_eq!(native.as_pbx_target(), Some(&PBXTargetKind::Native));
    assert_eq!(native.as_pbx_build_phase(), None);
    assert_eq!(native.as_pbxfs_reference(), None);
    assert_eq!(native.clone().try_into_target_kind(), Ok(PBXTargetKind::Native));
    assert_eq!(native.clone().try_into_build_phase_kind(), Err(native.clone()));
    assert_eq!(native.clone().try_into_fs_reference_kind(), Err(native.clone()));
    assert_eq!(native.clone().try_into_unknown(), Err(native.clone()));
    let phase = PBXObjectKind::PBXBuildPhase(PBXBuildPhaseKind::Headers);
    assert_eq!(phase.as_pbx_build_phase(), Some(&PBXBuildPhaseKind::Headers));
    assert_eq!(phase.clone().try_into_build_phase_kind(), Ok(PBXBuildPhaseKind::Headers));
    let file = PBXObjectKind::PBXFSReference(PBXFSReferenceKind::File);
    assert_eq!(file.as_pbxfs_reference(), Some(&PBXFSReferenceKind::File));
    assert_eq!(file.clone().try_into_fs_reference_kind(), Ok(PBXFSReferenceKind::File));
    let unknown = PBXObjectKind::Unknown("X".to_string());
    assert_eq!(unknown.clone().try_into_unknown(), Ok("X".to_string()));
    assert_ne!(unknown, PBXObjectKind::Unknown("Y".to_string()));
    assert_ne!(unknown, native);
}

#[test]
fn isa_names() {
    assert_eq!(PBXTargetKind::Native.as_isa(), "PBXNativeTarget");
    assert_eq!(PBXTargetKind::Legacy.as_isa(), "PBXLegacyTarget");
    assert_eq!(PBXTargetKind::Aggregate.as_isa(), "PBXAggregateTarget");
    assert!(PBXTargetKind::Native.is_native() && !PBXTargetKind::Native.is_legacy());
    assert!(PBXTargetKind::Legacy.is_legacy() && PBXTargetKind::Aggregate.is_aggregate());
    assert_eq!(PBXFSReferenceKind::FileGroup.as_isa(), "PBXGroup");
    assert_eq!(PBXFSReferenceKind::VersionGroup.as_isa(), "XCVersionGroup");
    assert_eq!(PBXFSReferenceKind::VariantGroup.as_isa(), "PBXVariantGroup");
    assert_eq!(PBXFSReferenceKind::File.as_isa(), "PBXFileReference");
    assert_eq!(PBXFSReferenceKind::default(), PBXFSReferenceKind::FileGroup);
    assert!(PBXFSReferenceKind::FileGroup.is_file_group() && PBXFSReferenceKind::File.is_file());
    assert!(PBXFSReferenceKind::VersionGroup.is_version_group());
    assert!(PBXFSReferenceKind::VariantGroup.is_variant_group());
    let phases = [
        (PBXBuildPhaseKind::Sources, "PBXSourcesBuildPhase", "Sources"),
        (PBXBuildPhaseKind::Frameworks, "PBXFrameworksBuildPhase", "Frameworks"),
        (PBXBuildPhaseKind::Resources, "PBXResourcesBuildPhase", "Resources"),
        (PBXBuildPhaseKind::CopyFiles, "PBXCopyFilesBuildPhase", "CopyFiles"),
        (PBXBuildPhaseKind::RunScript, "PBXShellScriptBuildPhase", "Run Script"),
        (PBXBuildPhaseKind::Headers, "PBXHeadersBuildPhase", "Headers"),
        (PBXBuildPhaseKind::CarbonResources, "PBXRezBuildPhase", "Rez"),
    ];
    for (kind, isa, name) in phases {
        assert_eq!(kind.as_isa(), isa);
        assert_eq!(kind.to_string(), name);
        assert_eq!(PBXBuildPhaseKind::try_from_name(name), Some(kind));
        assert_eq!(PBXObjectKind::from_isa(isa), PBXObjectKind::PBXBuildPhase(kind));
    }
    assert!(PBXBuildPhaseKind::Sources.is_sources() && PBXBuildPhaseKind::Headers.is_headers());
    assert!(PBXBuildPhaseKind::Frameworks.is_frameworks());
    assert!(PBXBuildPhaseKind::Resources.is_resources());
    assert!(PBXBuildPhaseKind::CopyFiles.is_copy_files());
    assert!(PBXBuildPhaseKind::RunScript.is_run_script());
    assert!(PBXBuildPhaseKind::CarbonResources.is_carbon_resources());
}
