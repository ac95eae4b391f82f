//! A static reference table for Apple platforms: each platform variant
//! carries a fixed record of identifier strings (canonical tag, numeric id,
//! short name, build name, target name, TAPI target name, marketing name),
//! with lookup in both directions. The `triple` module converts compiler
//! target-triple strings between toolchain dialects and resolves SDK names.

use vstd::prelude::*;

pub mod triple;

verus! {

/// The closed set of known Apple platform variants, `UNKNOWN` first.
#[derive(Clone, Copy, Debug, PartialEq, Eq, Structural)]
pub enum ApplePlatform {
    UNKNOWN,
    MACOS,
    IOS,
    TVOS,
    WATCHOS,
    BRIDGEOS,
    MACCATALYST,
    IOSSIMULATOR,
    TVOSSIMULATOR,
    WATCHOSSIMULATOR,
    DRIVERKIT,
    XROS,
    #[allow(non_camel_case_types)]
    XROS_SIMULATOR,
}

/// The record of identifier strings attached to one platform variant.
#[derive(Clone, Copy, Debug)]
pub struct Platform<'a> {
    pub platform: &'a str,
    pub id: usize,
    pub name: &'a str,
    pub build_name: &'a str,
    pub target: &'a str,
    pub tapi_target: &'a str,
    pub marketing: &'a str,
}

/// The mathematical image of a `Platform` record: each string field as a
/// character sequence, the numeric id as an integer.
#[verifier::ext_equal]
pub struct PlatformModel {
    pub tag: Seq<char>,
    pub id: int,
    pub name: Seq<char>,
    pub build_name: Seq<char>,
    pub target: Seq<char>,
    pub tapi_target: Seq<char>,
    pub marketing: Seq<char>,
}

impl<'a> View for Platform<'a> {
    type V = PlatformModel;

    open spec fn view(&self) -> PlatformModel {
        PlatformModel {
            tag: self.platform@,
            id: self.id as int,
            name: self.name@,
            build_name: self.build_name@,
            target: self.target@,
            tapi_target: self.tapi_target@,
            marketing: self.marketing@,
        }
    }
}

/// Whether two string slices hold the same text.
pub(crate) fn str_eq(a: &str, b: &str) -> (r: bool)
    ensures
        r == (a@ == b@),
{
    let a_owned: String = a.to_owned();
    let b_owned: String = b.to_owned();
    a_owned == b_owned
}

/// The record that belongs to each variant, as a mathematical value.
pub open spec fn spec_describe(v: ApplePlatform) -> PlatformModel {
    match v {
        ApplePlatform::UNKNOWN => PlatformModel {
            tag: "UNKNOWN"@,
            id: 0,
            name: "unknown"@,
            build_name: "unknown"@,
            target: "unknown"@,
            tapi_target: "unknown"@,
            marketing: "unknown"@,
        },
        ApplePlatform::MACOS => PlatformModel {
            tag: "MACOS"@,
            id: 1,
            name: "macos"@,
            build_name: "macos"@,
            target: "macos"@,
            tapi_target: "macos"@,
            marketing: "macOS"@,
        },
        ApplePlatform::IOS => PlatformModel {
            tag: "IOS"@,
            id: 2,
            name: "ios"@,
            build_name: "ios"@,
            target: "ios"@,
            tapi_target: "ios"@,
            marketing: "iOS"@,
        },
        ApplePlatform::TVOS => PlatformModel {
            tag: "TVOS"@,
            id: 3,
            name: "tvos"@,
            build_name: "tvos"@,
            target: "tvos"@,
            tapi_target: "tvos"@,
            marketing: "tvOS"@,
        },
        ApplePlatform::WATCHOS => PlatformModel {
            tag: "WATCHOS"@,
            id: 4,
            name: "watchos"@,
            build_name: "watchos"@,
            target: "watchos"@,
            tapi_target: "watchos"@,
            marketing: "watchOS"@,
        },
        ApplePlatform::BRIDGEOS => PlatformModel {
            tag: "BRIDGEOS"@,
            id: 5,
            name: "bridgeos"@,
            build_name: "bridgeos"@,
            target: "bridgeos"@,
            tapi_target: "bridgeos"@,
            marketing: "bridgeOS"@,
        },
        ApplePlatform::MACCATALYST => PlatformModel {
            tag: "MACCATALYST"@,
            id: 6,
            name: "macCatalyst"@,
            build_name: "macCatalyst"@,
            target: "ios-macabi"@,
            tapi_target: "ios-macabi"@,
            marketing: "macCatalyst"@,
        },
        ApplePlatform::IOSSIMULATOR => PlatformModel {
            tag: "IOSSIMULATOR"@,
            id: 7,
            name: "iossimulator"@,
            build_name: "iossimulator"@,
            target: "ios-simulator"@,
            tapi_target: "ios-simulator"@,
            marketing: "iOS Simulator"@,
        },
        ApplePlatform::TVOSSIMULATOR => PlatformModel {
            tag: "TVOSSIMULATOR"@,
            id: 8,
            name: "tvossimulator"@,
            build_name: "tvossimulator"@,
            target: "tvos-simulator"@,
            tapi_target: "tvos-simulator"@,
            marketing: "tvOS Simulator"@,
        },
        ApplePlatform::WATCHOSSIMULATOR => PlatformModel {
            tag: "WATCHOSSIMULATOR"@,
            id: 9,
            name: "watchossimulator"@,
            build_name: "watchossimulator"@,
            target: "watchos-simulator"@,
            tapi_target: "watchos-simulator"@,
            marketing: "watchOS Simulator"@,
        },
        ApplePlatform::DRIVERKIT => PlatformModel {
            tag: "DRIVERKIT"@,
            id: 10,
            name: "driverkit"@,
            build_name: "driverkit"@,
            target: "driverkit"@,
            tapi_target: "driverkit"@,
            marketing: "DriverKit"@,
        },
        ApplePlatform::XROS => PlatformModel {
            tag: "XROS"@,
            id: 11,
            name: "xros"@,
            build_name: "xros"@,
            target: "xros"@,
            tapi_target: "xros"@,
            marketing: "xrOS"@,
        },
        ApplePlatform::XROS_SIMULATOR => PlatformModel {
            tag: "XROS_SIMULATOR"@,
            id: 12,
            name: "xrsimulator"@,
            build_name: "xrsimulator"@,
            target: "xrsimulator"@,
            tapi_target: "xros-simulator"@,
            marketing: "Simulator"@,
        },
    }
}

/// The variant a canonical tag maps back to: an unrecognised tag is resolved
/// to `UNKNOWN` by design (a silent default, not an error).
pub open spec fn spec_variant_of_tag(tag: Seq<char>) -> ApplePlatform {
    if tag == "UNKNOWN"@ {
        ApplePlatform::UNKNOWN
    } else if tag == "MACOS"@ {
        ApplePlatform::MACOS
    } else if tag == "IOS"@ {
        ApplePlatform::IOS
    } else if tag == "TVOS"@ {
        ApplePlatform::TVOS
    } else if tag == "WATCHOS"@ {
        ApplePlatform::WATCHOS
    } else if tag == "BRIDGEOS"@ {
        ApplePlatform::BRIDGEOS
    } else if tag == "MACCATALYST"@ {
        ApplePlatform::MACCATALYST
    } else if tag == "IOSSIMULATOR"@ {
        ApplePlatform::IOSSIMULATOR
    } else if tag == "TVOSSIMULATOR"@ {
        ApplePlatform::TVOSSIMULATOR
    } else if tag == "WATCHOSSIMULATOR"@ {
        ApplePlatform::WATCHOSSIMULATOR
    } else if tag == "DRIVERKIT"@ {
        ApplePlatform::DRIVERKIT
    } else if tag == "XROS"@ {
        ApplePlatform::XROS
    } else if tag == "XROS_SIMULATOR"@ {
        ApplePlatform::XROS_SIMULATOR
    } else {
        ApplePlatform::UNKNOWN
    }
}

/// All variants in declaration order, `UNKNOWN` (id 0) first.
pub open spec fn spec_all_variants() -> Seq<ApplePlatform> {
    seq![
        ApplePlatform::UNKNOWN,
        ApplePlatform::MACOS,
        ApplePlatform::IOS,
        ApplePlatform::TVOS,
        ApplePlatform::WATCHOS,
        ApplePlatform::BRIDGEOS,
        ApplePlatform::MACCATALYST,
        ApplePlatform::IOSSIMULATOR,
        ApplePlatform::TVOSSIMULATOR,
        ApplePlatform::WATCHOSSIMULATOR,
        ApplePlatform::DRIVERKIT,
        ApplePlatform::XROS,
        ApplePlatform::XROS_SIMULATOR,
    ]
}

impl ApplePlatform {
    /// The 13 variants in fixed declaration order, `UNKNOWN` first.
    pub fn into_iter() -> (r: Vec<ApplePlatform>)
        ensures
            r@ == spec_all_variants(),
            r@.len() == 13,
            r@[0] == ApplePlatform::UNKNOWN,
    {
        let mut v: Vec<ApplePlatform> = Vec::new();
        v.push(ApplePlatform::UNKNOWN);
        v.push(ApplePlatform::MACOS);
        v.push(ApplePlatform::IOS);
        v.push(ApplePlatform::TVOS);
        v.push(ApplePlatform::WATCHOS);
        v.push(ApplePlatform::BRIDGEOS);
        v.push(ApplePlatform::MACCATALYST);
        v.push(ApplePlatform::IOSSIMULATOR);
        v.push(ApplePlatform::TVOSSIMULATOR);
        v.push(ApplePlatform::WATCHOSSIMULATOR);
        v.push(ApplePlatform::DRIVERKIT);
        v.push(ApplePlatform::XROS);
        v.push(ApplePlatform::XROS_SIMULATOR);
        proof {
            assert(v@ =~= spec_all_variants());
        }
        v
    }
}

impl Platform<'static> {
    /// Look up the record of a variant. Total: every variant has a record,
    /// so the result is always `Ok`.
    pub fn try_from(value: ApplePlatform) -> (r: Result<Platform<'static>, ()>)
        ensures
            r matches Ok(p) && p@ == spec_describe(value),
    {
        let p = match value {
            ApplePlatform::UNKNOWN => Platform {
                platform: "UNKNOWN",
                id: 0,
                name: "unknown",
                build_name: "unknown",
                target: "unknown",
                tapi_target: "unknown",
                marketing: "unknown",
            },
            ApplePlatform::MACOS => Platform {
                platform: "MACOS",
                id: 1,
                name: "macos",
                build_name: "macos",
                target: "macos",
                tapi_target: "macos",
                marketing: "macOS",
            },
            ApplePlatform::IOS => Platform {
                platform: "IOS",
                id: 2,
                name: "ios",
                build_name: "ios",
                target: "ios",
                tapi_target: "ios",
                marketing: "iOS",
            },
            ApplePlatform::TVOS => Platform {
                platform: "TVOS",
                id: 3,
                name: "tvos",
                build_name: "tvos",
                target: "tvos",
                tapi_target: "tvos",
                marketing: "tvOS",
            },
            ApplePlatform::WATCHOS => Platform {
                platform: "WATCHOS",
                id: 4,
                name: "watchos",
                build_name: "watchos",
                target: "watchos",
                tapi_target: "watchos",
                marketing: "watchOS",
            },
            ApplePlatform::BRIDGEOS => Platform {
                platform: "BRIDGEOS",
                id: 5,
                name: "bridgeos",
                build_name: "bridgeos",
                target: "bridgeos",
                tapi_target: "bridgeos",
                marketing: "bridgeOS",
            },
            ApplePlatform::MACCATALYST => Platform {
                platform: "MACCATALYST",
                id: 6,
                name: "macCatalyst",
                build_name: "macCatalyst",
                target: "ios-macabi",
                tapi_target: "ios-macabi",
                marketing: "macCatalyst",
            },
            ApplePlatform::IOSSIMULATOR => Platform {
                platform: "IOSSIMULATOR",
                id: 7,
                name: "iossimulator",
                build_name: "iossimulator",
                target: "ios-simulator",
                tapi_target: "ios-simulator",
                marketing: "iOS Simulator",
            },
            ApplePlatform::TVOSSIMULATOR => Platform {
                platform: "TVOSSIMULATOR",
                id: 8,
                name: "tvossimulator",
                build_name: "tvossimulator",
                target: "tvos-simulator",
                tapi_target: "tvos-simulator",
                marketing: "tvOS Simulator",
            },
            ApplePlatform::WATCHOSSIMULATOR => Platform {
                platform: "WATCHOSSIMULATOR",
                id: 9,
                name: "watchossimulator",
                build_name: "watchossimulator",
                target: "watchos-simulator",
                tapi_target: "watchos-simulator",
                marketing: "watchOS Simulator",
            },
            ApplePlatform::DRIVERKIT => Platform {
                platform: "DRIVERKIT",
                id: 10,
                name: "driverkit",
                build_name: "driverkit",
                target: "driverkit",
                tapi_target: "driverkit",
                marketing: "DriverKit",
            },
            ApplePlatform::XROS => Platform {
                platform: "XROS",
                id: 11,
                name: "xros",
                build_name: "xros",
                target: "xros",
                tapi_target: "xros",
                marketing: "xrOS",
            },
            ApplePlatform::XROS_SIMULATOR => Platform {
                platform: "XROS_SIMULATOR",
                id: 12,
                name: "xrsimulator",
                build_name: "xrsimulator",
                target: "xrsimulator",
                tapi_target: "xros-simulator",
                marketing: "Simulator",
            },
        };
        proof {
            assert(p@ =~= spec_describe(value));
        }
        Ok(p)
    }

    /// Map a record back to its variant by the canonical tag; an
    /// unrecognised tag yields `UNKNOWN`.
    pub fn into(self) -> (r: ApplePlatform)
        ensures
            r == spec_variant_of_tag(self.platform@),
    {
        if str_eq(self.platform, "UNKNOWN") {
            ApplePlatform::UNKNOWN
        } else if str_eq(self.platform, "MACOS") {
            ApplePlatform::MACOS
        } else if str_eq(self.platform, "IOS") {
            ApplePlatform::IOS
        } else if str_eq(self.platform, "TVOS") {
            ApplePlatform::TVOS
        } else if str_eq(self.platform, "WATCHOS") {
            ApplePlatform::WATCHOS
        } else if str_eq(self.platform, "BRIDGEOS") {
            ApplePlatform::BRIDGEOS
        } else if str_eq(self.platform, "MACCATALYST") {
            ApplePlatform::MACCATALYST
        } else if str_eq(self.platform, "IOSSIMULATOR") {
            ApplePlatform::IOSSIMULATOR
        } else if str_eq(self.platform, "TVOSSIMULATOR") {
            ApplePlatform::TVOSSIMULATOR
        } else if str_eq(self.platform, "WATCHOSSIMULATOR") {
            ApplePlatform::WATCHOSSIMULATOR
        } else if str_eq(self.platform, "DRIVERKIT") {
            ApplePlatform::DRIVERKIT
        } else if str_eq(self.platform, "XROS") {
            ApplePlatform::XROS
        } else if str_eq(self.platform, "XROS_SIMULATOR") {
            ApplePlatform::XROS_SIMULATOR
        } else {
            ApplePlatform::UNKNOWN
        }
    }
}

/// The default record: every string field reads "unknown" (the tag too, in
/// lower case, unlike the `UNKNOWN` variant's canonical tag), id 0.
pub open spec fn spec_default_platform() -> PlatformModel {
    PlatformModel {
        tag: "unknown"@,
        id: 0,
        name: "unknown"@,
        build_name: "unknown"@,
        target: "unknown"@,
        tapi_target: "unknown"@,
        marketing: "unknown"@,
    }
}

impl Default for Platform<'static> {
    fn default() -> (r: Self)
        ensures
            r@ == spec_default_platform(),
    {
        let p = Platform {
            platform: "unknown",
            id: 0,
            name: "unknown",
            build_name: "unknown",
            target: "unknown",
            tapi_target: "unknown",
            marketing: "unknown",
        };
        proof {
            assert(p@ =~= spec_default_platform());
        }
        p
    }
}

impl Default for ApplePlatform {
    fn default() -> (r: Self)
        ensures
            r == ApplePlatform::UNKNOWN,
    {
        ApplePlatform::UNKNOWN
    }
}

/// Round trip through the canonical tag: looking up any variant's record and
/// mapping its tag back yields the same variant.
pub proof fn lemma_tag_round_trip(v: ApplePlatform)
    ensures
        spec_variant_of_tag(spec_describe(v).tag) == v,
{
    reveal_strlit("UNKNOWN");
    reveal_strlit("MACOS");
    reveal_strlit("IOS");
    reveal_strlit("TVOS");
    reveal_strlit("WATCHOS");
    reveal_strlit("BRIDGEOS");
    reveal_strlit("MACCATALYST");
    reveal_strlit("IOSSIMULATOR");
    reveal_strlit("TVOSSIMULATOR");
    reveal_strlit("WATCHOSSIMULATOR");
    reveal_strlit("DRIVERKIT");
    reveal_strlit("XROS");
    reveal_strlit("XROS_SIMULATOR");
    assert("UNKNOWN"@.len() == 7);
    assert("MACOS"@.len() == 5);
    assert("IOS"@.len() == 3);
    assert("TVOS"@.len() == 4);
    assert("WATCHOS"@.len() == 7);
    assert("BRIDGEOS"@.len() == 8);
    assert("MACCATALYST"@.len() == 11);
    assert("IOSSIMULATOR"@.len() == 12);
    assert("TVOSSIMULATOR"@.len() == 13);
    assert("WATCHOSSIMULATOR"@.len() == 16);
    assert("DRIVERKIT"@.len() == 9);
    assert("XROS"@.len() == 4);
    assert("XROS_SIMULATOR"@.len() == 14);
    assert("WATCHOS"@ != "UNKNOWN"@) by {
        assert("WATCHOS"@[0] == 'W');
        assert("UNKNOWN"@[0] == 'U');
    }
    assert("XROS"@ != "TVOS"@) by {
        assert("XROS"@[0] == 'X');
        assert("TVOS"@[0] == 'T');
    }
}

/// The numeric id determines the variant: the variant-to-record mapping is
/// injective (and, being total over 13 variants with ids 0 to 12, bijective)
/// on the numeric id.
pub proof fn lemma_id_injective(v1: ApplePlatform, v2: ApplePlatform)
    ensures
        spec_describe(v1).id == spec_describe(v2).id ==> v1 == v2,
{
}

/// In the fixed enumeration order, each variant stands at the index given by
/// its own numeric id; in particular the first entry is `UNKNOWN` with id 0.
pub proof fn lemma_variant_order(i: int)
    requires
        0 <= i < 13,
    ensures
        spec_describe(spec_all_variants()[i]).id == i,
{
}

} // verus!
