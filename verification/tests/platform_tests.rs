use apple_platforms::ApplePlatform;
use apple_platforms::Platform;

#[test]
fn all_platforms() {
    let platforms = ApplePlatform::into_iter()
        .into_iter()
        .map(|platform| platform)
        .collect::<Vec<_>>();
    assert_eq!(
        format!("{:?}", platforms),
        "[UNKNOWN, MACOS, IOS, TVOS, WATCHOS, BRIDGEOS, MACCATALYST, IOSSIMULATOR, TVOSSIMULATOR, WATCHOSSIMULATOR, DRIVERKIT, XROS, XROS_SIMULATOR]"
    )
}

#[test]
fn variant_count_and_order() {
    let platforms = ApplePlatform::into_iter();
    assert_eq!(platforms.len(), 13);
    assert_eq!(platforms[0], ApplePlatform::UNKNOWN);
    for (i, v) in platforms.into_iter().enumerate() {
        let record = Platform::try_from(v).unwrap();
        assert_eq!(record.id, i);
    }
}

#[test]
fn tag_round_trip() {
    for v in ApplePlatform::into_iter() {
        let record = Platform::try_from(v).unwrap();
        let back: ApplePlatform = record.into();
        assert_eq!(back, v);
    }
}

#[test]
fn unrecognized_tag_is_unknown() {
    let record = Platform {
        platform: "not-a-real-tag",
        ..Platform::default()
    };
    let v: ApplePlatform = record.into();
    assert_eq!(v, ApplePlatform::UNKNOWN);
}

#[test]
fn describe_macos_record() {
    let record = Platform::try_from(ApplePlatform::MACOS).unwrap();
    assert_eq!(record.platform, "MACOS");
    assert_eq!(record.id, 1);
    assert_eq!(record.name, "macos");
    assert_eq!(record.build_name, "macos");
    assert_eq!(record.target, "macos");
    assert_eq!(record.tapi_target, "macos");
    assert_eq!(record.marketing, "macOS");
}

#[test]
fn describe_maccatalyst_record() {
    let record = Platform::try_from(ApplePlatform::MACCATALYST).unwrap();
    assert_eq!(record.platform, "MACCATALYST");
    assert_eq!(record.id, 6);
    assert_eq!(record.name, "macCatalyst");
    assert_eq!(record.build_name, "macCatalyst");
    assert_eq!(record.target, "ios-macabi");
    assert_eq!(record.tapi_target, "ios-macabi");
    assert_eq!(record.marketing, "macCatalyst");
}

#[test]
fn describe_xros_simulator_record() {
    let record = Platform::try_from(ApplePlatform::XROS_SIMULATOR).unwrap();
    assert_eq!(record.platform, "XROS_SIMULATOR");
    assert_eq!(record.id, 12);
    assert_eq!(record.name, "xrsimulator");
    assert_eq!(record.build_name, "xrsimulator");
    assert_eq!(record.target, "xrsimulator");
    assert_eq!(record.tapi_target, "xros-simulator");
    assert_eq!(record.marketing, "Simulator");
}

#[test]
fn default_platform_record() {
    let record = Platform::default();
    assert_eq!(record.platform, "unknown");
    assert_eq!(record.id, 0);
    assert_eq!(record.name, "unknown");
    assert_eq!(record.build_name, "unknown");
    assert_eq!(record.target, "unknown");
    assert_eq!(record.tapi_target, "unknown");
    assert_eq!(record.marketing, "unknown");
}

#[test]
fn default_variant_is_unknown() {
    assert_eq!(ApplePlatform::default(), ApplePlatform::UNKNOWN);
}

#[test]
fn lowercase_default_tag_is_not_canonical() {
    let v: ApplePlatform = Platform::default().into();
    assert_eq!(v, ApplePlatform::UNKNOWN);
}
