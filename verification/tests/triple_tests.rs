use apple_platforms::triple::Architecture;
use apple_platforms::triple::SDK;
use apple_platforms::triple::Triple;
use apple_platforms::triple::TripleError;

#[test]
fn converts_to_clang() {
    let clang_target = Triple::target_to_clang_target("aarch64-apple-visionos");
    assert_eq!(clang_target, "arm64-apple-xros")
}

#[test]
fn clang_target_full_table() {
    let cases = [
        ("aarch64-apple-ios-macabi", "arm64-apple-maccatalyst"),
        ("aarch64-apple-ios", "arm64-apple-ios"),
        ("aarch64-apple-ios-sim", "aarch64-apple-ios-simulator"),
        ("aarch64-apple-tvos", "arm64-apple-tvos"),
        ("aarch64-apple-tvos-sim", "aarch-apple-tvos-simulator"),
        ("aarch64-apple-watchos-sim", "aarch64-apple-watchos-simulator"),
        ("aarch64-apple-driverkit", "arm64-apple-driverkit"),
        ("aarch64-apple-visionos", "arm64-apple-xros"),
        ("aarch64-apple-visionos-sim", "aarch64-apple-xros-simulator"),
        ("aarch64-apple-darwin", "arm64-apple-darwin"),
    ];
    for (input, expected) in cases {
        assert_eq!(Triple::target_to_clang_target(input), expected);
    }
}

#[test]
fn clang_target_passthrough() {
    let input = "totally-unknown-triple";
    assert_eq!(Triple::target_to_clang_target(input), input);
}

#[test]
fn sdk_for_visionos() {
    assert_eq!(SDK::target_to_sdk("aarch64-apple-visionos").unwrap(), "xros");
}

#[test]
fn sdk_unsupported_target_names_triple() {
    let err = SDK::target_to_sdk("totally-unknown-triple").unwrap_err();
    assert_eq!(
        err,
        TripleError::UnsupportedTarget("totally-unknown-triple".to_string())
    );
}

#[test]
fn sdk_ios_device_arm_wins() {
    // "aarch64-apple-ios" must resolve to the device SDK: the device arm of
    // the table is the one that matches, deterministically.
    assert_eq!(SDK::target_to_sdk("aarch64-apple-ios").unwrap(), "iphoneos");
}

#[test]
fn sdk_full_table() {
    let cases = [
        ("aarch64-apple-darwin", "macosx"),
        ("x86_64-apple-darwin", "macosx"),
        ("x86_64-apple-ios", "iphonesimulator"),
        ("i386-apple-ios", "iphonesimulator"),
        ("aarch64-apple-ios-sim", "iphonesimulator"),
        ("aarch64-apple-ios", "iphoneos"),
        ("armv7-apple-ios", "iphoneos"),
        ("armv7s-apple-ios", "iphoneos"),
        ("aarch64-apple-visionos-sim", "xrsimulator"),
        ("aarch64-apple-visionos", "xros"),
        ("aarch64-apple-tvos-sim", "appletvsimulator"),
        ("x86_64-apple-tvos", "appletvsimulator"),
        ("aarch64-apple-tvos", "appletvos"),
        ("aarch64-apple-watchos", "watchos"),
        ("armv7k-apple-watchos", "watchos"),
        ("arm64_32-apple-watchos", "watchos"),
        ("aarch64-apple-watchos-sim", "watchsimulator"),
        ("x86_64-apple-watchos-sim", "watchsimulator"),
    ];
    for (input, expected) in cases {
        assert_eq!(SDK::target_to_sdk(input).unwrap(), expected);
    }
}

#[test]
fn architecture_from_lowercase_tokens() {
    assert_eq!(Architecture::from_str("x86").unwrap(), Architecture::X86);
    assert_eq!(Architecture::from_str("x86_64").unwrap(), Architecture::X86_64);
    assert_eq!(Architecture::from_str("arm").unwrap(), Architecture::Arm);
    assert_eq!(Architecture::from_str("aarch64").unwrap(), Architecture::Arm64);
}

#[test]
fn architecture_from_mixed_case_tokens() {
    // Would fail if the case folding handed its argument back unchanged.
    assert_eq!(Architecture::from_str("X86").unwrap(), Architecture::X86);
    assert_eq!(Architecture::from_str("AArch64").unwrap(), Architecture::Arm64);
    assert_eq!(Architecture::from_str("ARM").unwrap(), Architecture::Arm);
}

#[test]
fn architecture_unsupported_token_names_input() {
    let err = Architecture::from_str("mips").unwrap_err();
    assert_eq!(
        err,
        TripleError::UnsupportedArchitecture("mips".to_string())
    );
}

#[test]
fn architecture_names() {
    assert_eq!(Architecture::X86.to_string(), "x86");
    assert_eq!(Architecture::X86_64.to_string(), "x64");
    assert_eq!(Architecture::Arm.to_string(), "arm");
    assert_eq!(Architecture::Arm64.to_string(), "arm64");
}
