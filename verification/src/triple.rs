//! Conversions on compiler target-triple strings: recognising architecture
//! tokens, rewriting a rust target triple into the clang driver spelling,
//! and resolving a target triple to its Apple SDK name.

use vstd::prelude::*;

use crate::str_eq;

verus! {

/// A recognised processor architecture token.
#[derive(Clone, Copy, Debug, PartialEq, Eq, Structural)]
pub enum Architecture {
    X86,
    X86_64,
    Arm,
    Arm64,
}

/// An error of this library: each variant carries the offending input string.
#[derive(Debug, Clone, PartialEq, Eq)]
pub enum TripleError {
    UnsupportedArchitecture(String),
    UnsupportedTarget(String),
}

/// What `str::to_lowercase` returns for a given character sequence.
pub uninterp spec fn lower_of(s: Seq<char>) -> Seq<char>;

/// Relies on str::to_lowercase: the result depends on the characters alone.
#[verifier::external_body]
fn lowercase(s: &str) -> (r: String)
    ensures
        r@ == lower_of(s@),
{
    s.to_lowercase()
}

/// The architecture a lower-case token names, if any.
pub open spec fn spec_architecture_of(token: Seq<char>) -> Option<Architecture> {
    if token == "x86"@ {
        Some(Architecture::X86)
    } else if token == "x86_64"@ {
        Some(Architecture::X86_64)
    } else if token == "arm"@ {
        Some(Architecture::Arm)
    } else if token == "aarch64"@ {
        Some(Architecture::Arm64)
    } else {
        None
    }
}

/// The short display name of an architecture.
pub open spec fn spec_architecture_name(a: Architecture) -> Seq<char> {
    match a {
        Architecture::X86 => "x86"@,
        Architecture::X86_64 => "x64"@,
        Architecture::Arm => "arm"@,
        Architecture::Arm64 => "arm64"@,
    }
}

impl Architecture {
    /// Recognise an exact (already lower-case) architecture token.
    pub fn of_token(token: &str) -> (r: Option<Architecture>)
        ensures
            r == spec_architecture_of(token@),
    {
        if str_eq(token, "x86") {
            Some(Architecture::X86)
        } else if str_eq(token, "x86_64") {
            Some(Architecture::X86_64)
        } else if str_eq(token, "arm") {
            Some(Architecture::Arm)
        } else if str_eq(token, "aarch64") {
            Some(Architecture::Arm64)
        } else {
            None
        }
    }

    /// Parse an architecture token, ignoring case. Inputs whose lower-case
    /// form is none of the four recognised tokens are rejected with an
    /// error carrying the input unchanged.
    pub fn from_str(target: &str) -> (r: Result<Architecture, TripleError>)
        ensures
            match spec_architecture_of(lower_of(target@)) {
                Some(a) => r == Ok::<Architecture, TripleError>(a),
                None => (r matches Err(e) && e matches TripleError::UnsupportedArchitecture(s)
                    && s@ == target@),
            },
    {
        let lowered = lowercase(target);
        match Architecture::of_token(lowered.as_str()) {
            Some(a) => Ok(a),
            None => Err(TripleError::UnsupportedArchitecture(target.to_owned())),
        }
    }

    /// The short display name: `x86`, `x64`, `arm` or `arm64`.
    pub fn to_string(&self) -> (r: String)
        ensures
            r@ == spec_architecture_name(*self),
    {
        match self {
            Architecture::X86 => "x86".to_owned(),
            Architecture::X86_64 => "x64".to_owned(),
            Architecture::Arm => "arm".to_owned(),
            Architecture::Arm64 => "arm64".to_owned(),
        }
    }
}

/// Conversions between spellings of a target triple.
pub struct Triple;

/// The clang driver spelling of a rust target triple. A triple outside the
/// fixed table is passed through unchanged (a silent default, not an error).
pub open spec fn spec_clang_target(t: Seq<char>) -> Seq<char> {
    if t == "aarch64-apple-ios-macabi"@ {
        "arm64-apple-maccatalyst"@
    } else if t == "aarch64-apple-ios"@ {
        "arm64-apple-ios"@
    } else if t == "aarch64-apple-ios-sim"@ {
        "aarch64-apple-ios-simulator"@
    } else if t == "aarch64-apple-tvos"@ {
        "arm64-apple-tvos"@
    } else if t == "aarch64-apple-tvos-sim"@ {
        "aarch-apple-tvos-simulator"@
    } else if t == "aarch64-apple-watchos-sim"@ {
        "aarch64-apple-watchos-simulator"@
    } else if t == "aarch64-apple-driverkit"@ {
        "arm64-apple-driverkit"@
    } else if t == "aarch64-apple-visionos"@ {
        "arm64-apple-xros"@
    } else if t == "aarch64-apple-visionos-sim"@ {
        "aarch64-apple-xros-simulator"@
    } else if t == "aarch64-apple-darwin"@ {
        "arm64-apple-darwin"@
    } else {
        t
    }
}

impl Triple {
    /// Convert a rust target triple to the clang-compatible spelling.
    /// `visionos` is still called `xros` in clang, though it is `visionos`
    /// in Xcode and rust.
    pub fn target_to_clang_target<'a>(target: &'a str) -> (r: &'a str)
        ensures
            r@ == spec_clang_target(target@),
    {
        if str_eq(target, "aarch64-apple-ios-macabi") {
            "arm64-apple-maccatalyst"
        } else if str_eq(target, "aarch64-apple-ios") {
            "arm64-apple-ios"
        } else if str_eq(target, "aarch64-apple-ios-sim") {
            "aarch64-apple-ios-simulator"
        } else if str_eq(target, "aarch64-apple-tvos") {
            "arm64-apple-tvos"
        } else if str_eq(target, "aarch64-apple-tvos-sim") {
            "aarch-apple-tvos-simulator"
        } else if str_eq(target, "aarch64-apple-watchos-sim") {
            "aarch64-apple-watchos-simulator"
        } else if str_eq(target, "aarch64-apple-driverkit") {
            "arm64-apple-driverkit"
        } else if str_eq(target, "aarch64-apple-visionos") {
            "arm64-apple-xros"
        } else if str_eq(target, "aarch64-apple-visionos-sim") {
            "aarch64-apple-xros-simulator"
        } else if str_eq(target, "aarch64-apple-darwin") {
            "arm64-apple-darwin"
        } else {
            target
        }
    }
}

/// Resolution of a target triple to its Apple SDK name.
pub struct SDK;

/// The SDK name of a target triple, or `None` outside the fixed table.
/// The arms are tried in order and the first match wins.
pub open spec fn spec_sdk_of(t: Seq<char>) -> Option<Seq<char>> {
    if t == "aarch64-apple-darwin"@ || t == "x86_64-apple-darwin"@ {
        Some("macosx"@)
    } else if t == "x86_64-apple-ios"@ || t == "i386-apple-ios"@ || t == "aarch64-apple-ios-sim"@ {
        Some("iphonesimulator"@)
    } else if t == "aarch64-apple-ios"@ || t == "armv7-apple-ios"@ || t == "armv7s-apple-ios"@ {
        Some("iphoneos"@)
    } else if t == "aarch64-apple-visionos-sim"@ {
        Some("xrsimulator"@)
    } else if t == "aarch64-apple-visionos"@ {
        Some("xros"@)
    } else if t == "aarch64-apple-tvos-sim"@ || t == "x86_64-apple-tvos"@ {
        Some("appletvsimulator"@)
    } else if t == "aarch64-apple-tvos"@ {
        Some("appletvos"@)
    } else if t == "aarch64-apple-watchos"@ || t == "armv7k-apple-watchos"@
        || t == "arm64_32-apple-watchos"@ {
        Some("watchos"@)
    } else if t == "aarch64-apple-watchos-sim"@ || t == "x86_64-apple-watchos-sim"@ {
        Some("watchsimulator"@)
    } else {
        None
    }
}

impl SDK {
    /// Resolve a target triple to its SDK name. A triple outside the fixed
    /// table is rejected with an error carrying that triple; this is the one
    /// function of the library with an explicit failure path.
    pub fn target_to_sdk<'a>(target: &'a str) -> (r: Result<&'a str, TripleError>)
        ensures
            match spec_sdk_of(target@) {
                Some(s) => r matches Ok(name) && name@ == s,
                None => (r matches Err(e) && e matches TripleError::UnsupportedTarget(t)
                    && t@ == target@),
            },
    {
        if str_eq(target, "aarch64-apple-darwin") || str_eq(target, "x86_64-apple-darwin") {
            Ok("macosx")
        } else if str_eq(target, "x86_64-apple-ios") || str_eq(target, "i386-apple-ios")
            || str_eq(target, "aarch64-apple-ios-sim") {
            Ok("iphonesimulator")
        } else if str_eq(target, "aarch64-apple-ios") || str_eq(target, "armv7-apple-ios")
            || str_eq(target, "armv7s-apple-ios") {
            Ok("iphoneos")
        } else if str_eq(target, "aarch64-apple-visionos-sim") {
            Ok("xrsimulator")
        } else if str_eq(target, "aarch64-apple-visionos") {
            Ok("xros")
        } else if str_eq(target, "aarch64-apple-tvos-sim") || str_eq(target, "x86_64-apple-tvos") {
            Ok("appletvsimulator")
        } else if str_eq(target, "aarch64-apple-tvos") {
            Ok("appletvos")
        } else if str_eq(target, "aarch64-apple-watchos") || str_eq(target, "armv7k-apple-watchos")
            || str_eq(target, "arm64_32-apple-watchos") {
            Ok("watchos")
        } else if str_eq(target, "aarch64-apple-watchos-sim")
            || str_eq(target, "x86_64-apple-watchos-sim") {
            Ok("watchsimulator")
        } else {
            Err(TripleError::UnsupportedTarget(target.to_owned()))
        }
    }
}

} // verus!
