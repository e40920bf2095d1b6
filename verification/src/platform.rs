//! The platforms that a target can be built for.
use vstd::prelude::*;
use crate::scheme::{find_first, first_index_of};
use crate::text::{chars_of, same_text, text_of};

verus! {

/// The platform of a target.
#[derive(Clone, Copy, Debug, Hash, PartialEq, Eq, Structural)]
pub enum PBXTargetPlatform {
    /// iOS.
    IOS,
    /// watchOS.
    WatchOS,
    /// tvOS.
    TvOS,
    /// macOS.
    MacOS,
    /// visionOS.
    XrOS,
    /// A platform that is not known, or none.
    Unknown,
}

/// The platform of the SDK named `s`.
pub open spec fn platform_of_sdk_root(s: Seq<char>) -> PBXTargetPlatform {
    if s == "iphoneos"@ {
        PBXTargetPlatform::IOS
    } else if s == "watchos"@ {
        PBXTargetPlatform::WatchOS
    } else if s == "appletvos"@ {
        PBXTargetPlatform::TvOS
    } else if s == "macosx"@ {
        PBXTargetPlatform::MacOS
    } else if s == "xros"@ {
        PBXTargetPlatform::XrOS
    } else {
        PBXTargetPlatform::Unknown
    }
}

/// The platform with the name `s`.
pub open spec fn platform_named(s: Seq<char>) -> PBXTargetPlatform {
    if s == "iOS"@ {
        PBXTargetPlatform::IOS
    } else if s == "watchOS"@ {
        PBXTargetPlatform::WatchOS
    } else if s == "tvOS"@ {
        PBXTargetPlatform::TvOS
    } else if s == "macOS"@ {
        PBXTargetPlatform::MacOS
    } else if s == "xrOS"@ {
        PBXTargetPlatform::XrOS
    } else {
        PBXTargetPlatform::Unknown
    }
}

/// The name of a platform; the empty text for `Unknown`.
pub open spec fn platform_name(p: PBXTargetPlatform) -> Seq<char> {
    match p {
        PBXTargetPlatform::IOS => "iOS"@,
        PBXTargetPlatform::WatchOS => "watchOS"@,
        PBXTargetPlatform::TvOS => "tvOS"@,
        PBXTargetPlatform::MacOS => "macOS"@,
        PBXTargetPlatform::XrOS => "xrOS"@,
        PBXTargetPlatform::Unknown => ""@,
    }
}

/// Whether the text `pattern` stands in `s` at the place `p`.
pub open spec fn stands_at(s: Seq<char>, pattern: Seq<char>, p: int) -> bool {
    0 <= p && p + pattern.len() <= s.len() && s.subrange(p, p + pattern.len()) == pattern
}

/// `s` from `from` on, without the places where `pattern` stands: they are
/// looked for from the front, and the next one after the end of the last.
pub open spec fn without_all(s: Seq<char>, pattern: Seq<char>, from: int) -> Seq<char>
    decreases s.len() - from,
{
    if from < 0 || from >= s.len() {
        Seq::empty()
    } else if pattern.len() > 0 && stands_at(s, pattern, from) {
        without_all(s, pattern, from + pattern.len())
    } else {
        seq![s[from]] + without_all(s, pattern, from + 1)
    }
}

/// The platform that the identifier `s` of a simulator runtime names, such as
/// `com.apple.CoreSimulator.SimRuntime.iOS-17-0`: the platform with the name
/// that stands before the first `-`, once the common beginning is taken out
/// wherever it stands.
pub open spec fn platform_of_identifier(s: Seq<char>) -> PBXTargetPlatform {
    let name = without_all(s, "com.apple.CoreSimulator.SimRuntime."@, 0);
    platform_named(name.subrange(0, first_index_of(name, '-', 0)))
}

/// Whether `pattern` stands in `s` at `p`.
fn stands_here(s: &Vec<char>, pattern: &Vec<char>, p: usize) -> (r: bool)
    requires
        p <= s.len(),
    ensures
        r == stands_at(s@, pattern@, p as int),
{
    if pattern.len() > s.len() - p {
        return false;
    }
    let mut k: usize = 0;
    while k < pattern.len()
        invariant
            k <= pattern.len(),
            p + pattern.len() <= s.len(),
            forall|j: int| 0 <= j < k ==> s@[p + j] == pattern@[j],
        decreases pattern.len() - k,
    {
        if s[p + k] != pattern[k] {
            assert(s@.subrange(p as int, p + pattern@.len())[k as int] != pattern@[k as int]);
            return false;
        }
        k += 1;
    }
    assert(s@.subrange(p as int, p + pattern@.len()) =~= pattern@);
    true
}

/// A copy of `s` without the places where `pattern` stands.
fn remove_all(s: &Vec<char>, pattern: &Vec<char>) -> (r: Vec<char>)
    ensures
        r@ == without_all(s@, pattern@, 0),
{
    let mut out: Vec<char> = Vec::new();
    let mut i: usize = 0;
    assert(out@ + without_all(s@, pattern@, 0) =~= without_all(s@, pattern@, 0));
    while i < s.len()
        invariant
            i <= s.len(),
            out@ + without_all(s@, pattern@, i as int) == without_all(s@, pattern@, 0),
        decreases s.len() - i,
    {
        let ghost before = out@;
        if pattern.len() > 0 && stands_here(s, pattern, i) {
            i += pattern.len();
        } else {
            out.push(s[i]);
            assert(out@ + without_all(s@, pattern@, i + 1) =~= before + (seq![s@[i as int]]
                + without_all(s@, pattern@, i + 1)));
            i += 1;
        }
    }
    assert(out@ + without_all(s@, pattern@, s@.len() as int) =~= out@);
    out
}

impl Default for PBXTargetPlatform {
    fn default() -> (r: Self)
        ensures
            r == PBXTargetPlatform::Unknown,
    {
        PBXTargetPlatform::Unknown
    }
}

impl PBXTargetPlatform {
    /// The platform of the SDK named `sdk_root`; `Unknown` for a name that is
    /// not in the table.
    pub fn from_sdk_root(sdk_root: &str) -> (r: PBXTargetPlatform)
        ensures
            r == platform_of_sdk_root(sdk_root@),
    {
        if same_text(sdk_root, "iphoneos") {
            PBXTargetPlatform::IOS
        } else if same_text(sdk_root, "watchos") {
            PBXTargetPlatform::WatchOS
        } else if same_text(sdk_root, "appletvos") {
            PBXTargetPlatform::TvOS
        } else if same_text(sdk_root, "macosx") {
            PBXTargetPlatform::MacOS
        } else if same_text(sdk_root, "xros") {
            PBXTargetPlatform::XrOS
        } else {
            PBXTargetPlatform::Unknown
        }
    }

    /// The platform with the name `s`; `Unknown` for a name that is not in the
    /// table.
    pub fn from_str(s: &str) -> (r: PBXTargetPlatform)
        ensures
            r == platform_named(s@),
    {
        if same_text(s, "iOS") {
            PBXTargetPlatform::IOS
        } else if same_text(s, "watchOS") {
            PBXTargetPlatform::WatchOS
        } else if same_text(s, "tvOS") {
            PBXTargetPlatform::TvOS
        } else if same_text(s, "macOS") {
            PBXTargetPlatform::MacOS
        } else if same_text(s, "xrOS") {
            PBXTargetPlatform::XrOS
        } else {
            PBXTargetPlatform::Unknown
        }
    }

    /// The platform that the identifier `identifer` of a simulator runtime
    /// names; `Unknown` when the name in it is not in the table.
    pub fn from_identifer(identifer: &str) -> (r: PBXTargetPlatform)
        ensures
            r == platform_of_identifier(identifer@),
    {
        let s = chars_of(identifer);
        let pattern = chars_of("com.apple.CoreSimulator.SimRuntime.");
        let name = remove_all(&s, &pattern);
        let end = find_first(&name, '-', 0);
        let text = text_of(&name, 0, end);
        PBXTargetPlatform::from_str(text.as_str())
    }

    /// The name of this platform; the empty text for `Unknown`.
    pub fn to_string(&self) -> (r: String)
        ensures
            r@ == platform_name(*self),
    {
        String::from_str(
            match self {
                PBXTargetPlatform::IOS => "iOS",
                PBXTargetPlatform::WatchOS => "watchOS",
                PBXTargetPlatform::TvOS => "tvOS",
                PBXTargetPlatform::MacOS => "macOS",
                PBXTargetPlatform::XrOS => "xrOS",
                PBXTargetPlatform::Unknown => "",
            },
        )
    }

    /// Whether this is the `Unknown` platform.
    pub fn is_unknown(&self) -> (r: bool)
        ensures
            r == (*self == PBXTargetPlatform::Unknown),
    {
        matches!(self, PBXTargetPlatform::Unknown)
    }
}

} // verus!
