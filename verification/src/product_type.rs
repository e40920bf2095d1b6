//! The product types of targets.
use vstd::prelude::*;
use crate::text::same_text;

verus! {

/// What a target produces.
#[derive(Clone, Copy, Debug, Hash, PartialEq, Eq, Structural)]
pub enum PBXProductType {
    /// `com.apple.product-type.application`
    Application,
    /// `com.apple.product-type.framework`
    Framework,
    /// `com.apple.product-type.framework.static`
    StaticFramework,
    /// `com.apple.product-type.xcframework`
    XcFramework,
    /// `com.apple.product-type.library.dynamic`
    DynamicLibrary,
    /// `com.apple.product-type.library.static`
    StaticLibrary,
    /// `com.apple.product-type.bundle`
    Bundle,
    /// `com.apple.product-type.bundle.unit-test`
    UnitTestBundle,
    /// `com.apple.product-type.bundle.ui-testing`
    UiTestBundle,
    /// `com.apple.product-type.app-extension`
    AppExtension,
    /// `com.apple.product-type.tool`
    CommandLineTool,
    /// `com.apple.product-type.application.watchapp`
    WatchApp,
    /// `com.apple.product-type.application.watchapp2`
    Watch2App,
    /// `com.apple.product-type.application.watchapp2-container`
    Watch2AppContainer,
    /// `com.apple.product-type.watchkit-extension`
    WatchExtension,
    /// `com.apple.product-type.watchkit2-extension`
    Watch2Extension,
    /// `com.apple.product-type.tv-app-extension`
    TvExtension,
    /// `com.apple.product-type.application.messages`
    MessagesApplication,
    /// `com.apple.product-type.app-extension.messages`
    MessagesExtension,
    /// `com.apple.product-type.app-extension.messages-sticker-pack`
    StickerPack,
    /// `com.apple.product-type.xpc-service`
    XpcService,
    /// `com.apple.product-type.bundle.ocunit-test`
    OcUnitTestBundle,
    /// `com.apple.product-type.xcode-extension`
    XcodeExtension,
    /// `com.apple.product-type.instruments-package`
    InstrumentsPackage,
    /// `com.apple.product-type.app-extension.intents-service`
    IntentsServiceExtension,
    /// `com.apple.product-type.application.on-demand-install-capable`
    OnDemandInstallCapableApplication,
    /// `com.apple.product-type.metal-library`
    MetalLibrary,
    /// `com.apple.product-type.driver-extension`
    DriverExtension,
    /// `com.apple.product-type.system-extension`
    SystemExtension,
    /// No product type, or one that is not in the table.
    Unspecified,
}

/// The product type that the identifier `s` names; `Unspecified` for an
/// identifier that is not in the table.
pub open spec fn product_type_of(s: Seq<char>) -> PBXProductType {
    if s == "com.apple.product-type.application"@ {
        PBXProductType::Application
    } else if s == "com.apple.product-type.framework"@ {
        PBXProductType::Framework
    } else if s == "com.apple.product-type.framework.static"@ {
        PBXProductType::StaticFramework
    } else if s == "com.apple.product-type.xcframework"@ {
        PBXProductType::XcFramework
    } else if s == "com.apple.product-type.library.dynamic"@ {
        PBXProductType::DynamicLibrary
    } else if s == "com.apple.product-type.library.static"@ {
        PBXProductType::StaticLibrary
    } else if s == "com.apple.product-type.bundle"@ {
        PBXProductType::Bundle
    } else if s == "com.apple.product-type.bundle.unit-test"@ {
        PBXProductType::UnitTestBundle
    } else if s == "com.apple.product-type.bundle.ui-testing"@ {
        PBXProductType::UiTestBundle
    } else if s == "com.apple.product-type.app-extension"@ {
        PBXProductType::AppExtension
    } else if s == "com.apple.product-type.tool"@ {
        PBXProductType::CommandLineTool
    } else if s == "com.apple.product-type.application.watchapp"@ {
        PBXProductType::WatchApp
    } else if s == "com.apple.product-type.application.watchapp2"@ {
        PBXProductType::Watch2App
    } else if s == "com.apple.product-type.application.watchapp2-container"@ {
        PBXProductType::Watch2AppContainer
    } else if s == "com.apple.product-type.watchkit-extension"@ {
        PBXProductType::WatchExtension
    } else if s == "com.apple.product-type.watchkit2-extension"@ {
        PBXProductType::Watch2Extension
    } else if s == "com.apple.product-type.tv-app-extension"@ {
        PBXProductType::TvExtension
    } else if s == "com.apple.product-type.application.messages"@ {
        PBXProductType::MessagesApplication
    } else if s == "com.apple.product-type.app-extension.messages"@ {
        PBXProductType::MessagesExtension
    } else if s == "com.apple.product-type.app-extension.messages-sticker-pack"@ {
        PBXProductType::StickerPack
    } else if s == "com.apple.product-type.xpc-service"@ {
        PBXProductType::XpcService
    } else if s == "com.apple.product-type.bundle.ocunit-test"@ {
        PBXProductType::OcUnitTestBundle
    } else if s == "com.apple.product-type.xcode-extension"@ {
        PBXProductType::XcodeExtension
    } else if s == "com.apple.product-type.instruments-package"@ {
        PBXProductType::InstrumentsPackage
    } else if s == "com.apple.product-type.app-extension.intents-service"@ {
        PBXProductType::IntentsServiceExtension
    } else if s == "com.apple.product-type.application.on-demand-install-capable"@ {
        PBXProductType::OnDemandInstallCapableApplication
    } else if s == "com.apple.product-type.metal-library"@ {
        PBXProductType::MetalLibrary
    } else if s == "com.apple.product-type.driver-extension"@ {
        PBXProductType::DriverExtension
    } else if s == "com.apple.product-type.system-extension"@ {
        PBXProductType::SystemExtension
    } else {
        PBXProductType::Unspecified
    }
}

/// The identifier of a product type; the empty text for `Unspecified`.
pub open spec fn product_type_name(t: PBXProductType) -> Seq<char> {
    match t {
        PBXProductType::Application => "com.apple.product-type.application"@,
        PBXProductType::Framework => "com.apple.product-type.framework"@,
        PBXProductType::StaticFramework => "com.apple.product-type.framework.static"@,
        PBXProductType::XcFramework => "com.apple.product-type.xcframework"@,
        PBXProductType::DynamicLibrary => "com.apple.product-type.library.dynamic"@,
        PBXProductType::StaticLibrary => "com.apple.product-type.library.static"@,
        PBXProductType::Bundle => "com.apple.product-type.bundle"@,
        PBXProductType::UnitTestBundle => "com.apple.product-type.bundle.unit-test"@,
        PBXProductType::UiTestBundle => "com.apple.product-type.bundle.ui-testing"@,
        PBXProductType::AppExtension => "com.apple.product-type.app-extension"@,
        PBXProductType::CommandLineTool => "com.apple.product-type.tool"@,
        PBXProductType::WatchApp => "com.apple.product-type.application.watchapp"@,
        PBXProductType::Watch2App => "com.apple.product-type.application.watchapp2"@,
        PBXProductType::Watch2AppContainer =>
            "com.apple.product-type.application.watchapp2-container"@,
        PBXProductType::WatchExtension => "com.apple.product-type.watchkit-extension"@,
        PBXProductType::Watch2Extension => "com.apple.product-type.watchkit2-extension"@,
        PBXProductType::TvExtension => "com.apple.product-type.tv-app-extension"@,
        PBXProductType::MessagesApplication => "com.apple.product-type.application.messages"@,
        PBXProductType::MessagesExtension => "com.apple.product-type.app-extension.messages"@,
        PBXProductType::StickerPack =>
            "com.apple.product-type.app-extension.messages-sticker-pack"@,
        PBXProductType::XpcService => "com.apple.product-type.xpc-service"@,
        PBXProductType::OcUnitTestBundle => "com.apple.product-type.bundle.ocunit-test"@,
        PBXProductType::XcodeExtension => "com.apple.product-type.xcode-extension"@,
        PBXProductType::InstrumentsPackage => "com.apple.product-type.instruments-package"@,
        PBXProductType::IntentsServiceExtension =>
            "com.apple.product-type.app-extension.intents-service"@,
        PBXProductType::OnDemandInstallCapableApplication =>
            "com.apple.product-type.application.on-demand-install-capable"@,
        PBXProductType::MetalLibrary => "com.apple.product-type.metal-library"@,
        PBXProductType::DriverExtension => "com.apple.product-type.driver-extension"@,
        PBXProductType::SystemExtension => "com.apple.product-type.system-extension"@,
        PBXProductType::Unspecified => ""@,
    }
}

/// The extension of the file that a product of this type is, if it has one.
pub open spec fn product_file_extension(t: PBXProductType) -> Option<Seq<char>> {
    match t {
        PBXProductType::Application => Some("app"@),
        PBXProductType::Framework => Some("framework"@),
        PBXProductType::StaticFramework => Some("framework"@),
        PBXProductType::XcFramework => Some("xcframework"@),
        PBXProductType::DynamicLibrary => Some("dylib"@),
        PBXProductType::StaticLibrary => Some("a"@),
        PBXProductType::Bundle => Some("bundle"@),
        PBXProductType::UnitTestBundle => Some("xctest"@),
        PBXProductType::UiTestBundle => Some("xctest"@),
        PBXProductType::AppExtension => Some("appex"@),
        PBXProductType::CommandLineTool => None,
        PBXProductType::WatchApp => Some("app"@),
        PBXProductType::Watch2App => Some("app"@),
        PBXProductType::Watch2AppContainer => Some("app"@),
        PBXProductType::WatchExtension => Some("appex"@),
        PBXProductType::Watch2Extension => Some("appex"@),
        PBXProductType::TvExtension => Some("appex"@),
        PBXProductType::MessagesApplication => Some("app"@),
        PBXProductType::MessagesExtension => Some("appex"@),
        PBXProductType::StickerPack => Some("appex"@),
        PBXProductType::XpcService => Some("xpc"@),
        PBXProductType::OcUnitTestBundle => Some("octest"@),
        PBXProductType::XcodeExtension => Some("appex"@),
        PBXProductType::InstrumentsPackage => Some("instrpkg"@),
        PBXProductType::IntentsServiceExtension => Some("appex"@),
        PBXProductType::OnDemandInstallCapableApplication => Some("app"@),
        PBXProductType::MetalLibrary => Some("metallib"@),
        PBXProductType::DriverExtension => Some("dext"@),
        PBXProductType::SystemExtension => Some("systemextension"@),
        PBXProductType::Unspecified => None,
    }
}

impl Default for PBXProductType {
    fn default() -> (r: Self)
        ensures
            r == PBXProductType::Unspecified,
    {
        PBXProductType::Unspecified
    }
}

impl PBXProductType {
    /// The product type that the identifier `value` names.
    pub fn from_name(value: &str) -> (r: PBXProductType)
        ensures
            r == product_type_of(value@),
    {
        if same_text(value, "com.apple.product-type.application") {
            PBXProductType::Application
        } else if same_text(value, "com.apple.product-type.framework") {
            PBXProductType::Framework
        } else if same_text(value, "com.apple.product-type.framework.static") {
            PBXProductType::StaticFramework
        } else if same_text(value, "com.apple.product-type.xcframework") {
            PBXProductType::XcFramework
        } else if same_text(value, "com.apple.product-type.library.dynamic") {
            PBXProductType::DynamicLibrary
        } else if same_text(value, "com.apple.product-type.library.static") {
            PBXProductType::StaticLibrary
        } else if same_text(value, "com.apple.product-type.bundle") {
            PBXProductType::Bundle
        } else if same_text(value, "com.apple.product-type.bundle.unit-test") {
            PBXProductType::UnitTestBundle
        } else if same_text(value, "com.apple.product-type.bundle.ui-testing") {
            PBXProductType::UiTestBundle
        } else if same_text(value, "com.apple.product-type.app-extension") {
            PBXProductType::AppExtension
        } else if same_text(value, "com.apple.product-type.tool") {
            PBXProductType::CommandLineTool
        } else if same_text(value, "com.apple.product-type.application.watchapp") {
            PBXProductType::WatchApp
        } else if same_text(value, "com.apple.product-type.application.watchapp2") {
            PBXProductType::Watch2App
        } else if same_text(value, "com.apple.product-type.application.watchapp2-container") {
            PBXProductType::Watch2AppContainer
        } else if same_text(value, "com.apple.product-type.watchkit-extension") {
            PBXProductType::WatchExtension
        } else if same_text(value, "com.apple.product-type.watchkit2-extension") {
            PBXProductType::Watch2Extension
        } else if same_text(value, "com.apple.product-type.tv-app-extension") {
            PBXProductType::TvExtension
        } else if same_text(value, "com.apple.product-type.application.messages") {
            PBXProductType::MessagesApplication
        } else if same_text(value, "com.apple.product-type.app-extension.messages") {
            PBXProductType::MessagesExtension
        } else if same_text(value, "com.apple.product-type.app-extension.messages-sticker-pack") {
            PBXProductType::StickerPack
        } else if same_text(value, "com.apple.product-type.xpc-service") {
            PBXProductType::XpcService
        } else if same_text(value, "com.apple.product-type.bundle.ocunit-test") {
            PBXProductType::OcUnitTestBundle
        } else if same_text(value, "com.apple.product-type.xcode-extension") {
            PBXProductType::XcodeExtension
        } else if same_text(value, "com.apple.product-type.instruments-package") {
            PBXProductType::InstrumentsPackage
        } else if same_text(value, "com.apple.product-type.app-extension.intents-service") {
            PBXProductType::IntentsServiceExtension
        } else if same_text(value, "com.apple.product-type.application.on-demand-install-capable") {
            PBXProductType::OnDemandInstallCapableApplication
        } else if same_text(value, "com.apple.product-type.metal-library") {
            PBXProductType::MetalLibrary
        } else if same_text(value, "com.apple.product-type.driver-extension") {
            PBXProductType::DriverExtension
        } else if same_text(value, "com.apple.product-type.system-extension") {
            PBXProductType::SystemExtension
        } else {
            PBXProductType::Unspecified
        }
    }

    /// The identifier of this product type; the empty text for `Unspecified`.
    pub fn to_string(&self) -> (r: String)
        ensures
            r@ == product_type_name(*self),
    {
        String::from_str(
            match self {
                PBXProductType::Application => "com.apple.product-type.application",
                PBXProductType::Framework => "com.apple.product-type.framework",
                PBXProductType::StaticFramework => "com.apple.product-type.framework.static",
                PBXProductType::XcFramework => "com.apple.product-type.xcframework",
                PBXProductType::DynamicLibrary => "com.apple.product-type.library.dynamic",
                PBXProductType::StaticLibrary => "com.apple.product-type.library.static",
                PBXProductType::Bundle => "com.apple.product-type.bundle",
                PBXProductType::UnitTestBundle => "com.apple.product-type.bundle.unit-test",
                PBXProductType::UiTestBundle => "com.apple.product-type.bundle.ui-testing",
                PBXProductType::AppExtension => "com.apple.product-type.app-extension",
                PBXProductType::CommandLineTool => "com.apple.product-type.tool",
                PBXProductType::WatchApp => "com.apple.product-type.application.watchapp",
                PBXProductType::Watch2App => "com.apple.product-type.application.watchapp2",
                PBXProductType::Watch2AppContainer =>
                    "com.apple.product-type.application.watchapp2-container",
                PBXProductType::WatchExtension => "com.apple.product-type.watchkit-extension",
                PBXProductType::Watch2Extension => "com.apple.product-type.watchkit2-extension",
                PBXProductType::TvExtension => "com.apple.product-type.tv-app-extension",
                PBXProductType::MessagesApplication =>
                    "com.apple.product-type.application.messages",
                PBXProductType::MessagesExtension =>
                    "com.apple.product-type.app-extension.messages",
                PBXProductType::StickerPack =>
                    "com.apple.product-type.app-extension.messages-sticker-pack",
                PBXProductType::XpcService => "com.apple.product-type.xpc-service",
                PBXProductType::OcUnitTestBundle => "com.apple.product-type.bundle.ocunit-test",
                PBXProductType::XcodeExtension => "com.apple.product-type.xcode-extension",
                PBXProductType::InstrumentsPackage => "com.apple.product-type.instruments-package",
                PBXProductType::IntentsServiceExtension =>
                    "com.apple.product-type.app-extension.intents-service",
                PBXProductType::OnDemandInstallCapableApplication =>
                    "com.apple.product-type.application.on-demand-install-capable",
                PBXProductType::MetalLibrary => "com.apple.product-type.metal-library",
                PBXProductType::DriverExtension => "com.apple.product-type.driver-extension",
                PBXProductType::SystemExtension => "com.apple.product-type.system-extension",
                PBXProductType::Unspecified => "",
            },
        )
    }

    /// The extension of the file that a product of this type is, if it has
    /// one.
    pub fn file_extension(&self) -> (r: Option<&'static str>)
        ensures
            match r {
                Some(e) => product_file_extension(*self) == Some(e@),
                None => product_file_extension(*self) is None,
            },
    {
        match self {
            PBXProductType::Application => Some("app"),
            PBXProductType::Framework => Some("framework"),
            PBXProductType::StaticFramework => Some("framework"),
            PBXProductType::XcFramework => Some("xcframework"),
            PBXProductType::DynamicLibrary => Some("dylib"),
            PBXProductType::StaticLibrary => Some("a"),
            PBXProductType::Bundle => Some("bundle"),
            PBXProductType::UnitTestBundle => Some("xctest"),
            PBXProductType::UiTestBundle => Some("xctest"),
            PBXProductType::AppExtension => Some("appex"),
            PBXProductType::CommandLineTool => None,
            PBXProductType::WatchApp => Some("app"),
            PBXProductType::Watch2App => Some("app"),
            PBXProductType::Watch2AppContainer => Some("app"),
            PBXProductType::WatchExtension => Some("appex"),
            PBXProductType::Watch2Extension => Some("appex"),
            PBXProductType::TvExtension => Some("appex"),
            PBXProductType::MessagesApplication => Some("app"),
            PBXProductType::MessagesExtension => Some("appex"),
            PBXProductType::StickerPack => Some("appex"),
            PBXProductType::XpcService => Some("xpc"),
            PBXProductType::OcUnitTestBundle => Some("octest"),
            PBXProductType::XcodeExtension => Some("appex"),
            PBXProductType::InstrumentsPackage => Some("instrpkg"),
            PBXProductType::IntentsServiceExtension => Some("appex"),
            PBXProductType::OnDemandInstallCapableApplication => Some("app"),
            PBXProductType::MetalLibrary => Some("metallib"),
            PBXProductType::DriverExtension => Some("dext"),
            PBXProductType::SystemExtension => Some("systemextension"),
            PBXProductType::Unspecified => None,
        }
    }
}

} // verus!
