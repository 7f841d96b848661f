//! The selector of a resolution.

use crate::location::Location;
use vstd::prelude::*;

verus! {

/// Windows SDK versions.
///
/// Prior to v10.0, each Windows SDK came in two flavours: one with an `A`
/// suffix in its version number, and one without. Both are looked for, and the
/// suffixed one is preferred.
#[derive(Clone, Copy, Debug, PartialEq, Eq, Structural)]
pub enum SdkVersion {
    /// Any Windows SDK version.
    ///
    /// This is either one specified by environment variables or, if that is
    /// not available, the latest version found in the registry.
    Any,
    /// A Windows SDK installation specified by environment variables.
    Env,
    /// The Windows 10.0 SDK.
    V10_0,
    /// The Windows 8.1 SDK.
    V8_1,
    /// The Windows 8.0 SDK.
    V8_0,
    /// The Windows 7.1 SDK.
    V7_1,
    /// The Windows 7.0 SDK.
    V7_0,
    /// The Windows 6.1 SDK.
    V6_1,
    /// The Windows 6.0 SDK.
    V6_0,
}

impl SdkVersion {
    /// The selectors that `Any` stands for, in the order in which it tries
    /// them: the environment first, then the generations from the newest to
    /// the oldest.
    pub open spec fn search_order() -> Seq<SdkVersion> {
        seq![
            SdkVersion::Env,
            SdkVersion::V10_0,
            SdkVersion::V8_1,
            SdkVersion::V8_0,
            SdkVersion::V7_1,
            SdkVersion::V7_0,
            SdkVersion::V6_1,
            SdkVersion::V6_0,
        ]
    }

    /// Whether the selector names one SDK generation.
    pub open spec fn is_generation(self) -> bool {
        self != SdkVersion::Any && self != SdkVersion::Env
    }

    /// Whether the selector names a generation that came in two flavours.
    pub open spec fn is_double_release(self) -> bool {
        self.is_generation() && self != SdkVersion::V10_0
    }

    /// Whether a resolution of this selector reads the environment.
    pub open spec fn spec_reads_environment(self) -> bool {
        self == SdkVersion::Any || self == SdkVersion::Env
    }

    /// The location of a generation: of its plain flavour, where it has two.
    pub open spec fn plain(self) -> Location
        recommends
            self.is_generation(),
    {
        match self {
            SdkVersion::V8_1 => Location::V8_1,
            SdkVersion::V8_0 => Location::V8_0,
            SdkVersion::V7_1 => Location::V7_1,
            SdkVersion::V7_0 => Location::V7_0,
            SdkVersion::V6_1 => Location::V6_1,
            SdkVersion::V6_0 => Location::V6_0,
            _ => Location::V10_0,
        }
    }

    /// The location of the suffixed flavour of a generation that has two.
    pub open spec fn suffixed(self) -> Location
        recommends
            self.is_double_release(),
    {
        match self {
            SdkVersion::V8_0 => Location::V8_0A,
            SdkVersion::V7_1 => Location::V7_1A,
            SdkVersion::V7_0 => Location::V7_0A,
            SdkVersion::V6_1 => Location::V6_1A,
            SdkVersion::V6_0 => Location::V6_0A,
            _ => Location::V8_1A,
        }
    }

    /// The registry locations that a resolution of this selector may look
    /// up, in the order in which it does.
    pub open spec fn spec_locations(self) -> Seq<Location> {
        match self {
            SdkVersion::Any => seq![
                Location::V10_0,
                Location::V8_1A,
                Location::V8_1,
                Location::V8_0A,
                Location::V8_0,
                Location::V7_1A,
                Location::V7_1,
                Location::V7_0A,
                Location::V7_0,
                Location::V6_1A,
                Location::V6_1,
                Location::V6_0A,
                Location::V6_0,
            ],
            SdkVersion::Env => seq![],
            SdkVersion::V10_0 => seq![Location::V10_0],
            _ => seq![self.suffixed(), self.plain()],
        }
    }

    /// Returns whether a resolution of this selector reads the environment.
    pub fn reads_environment(self) -> (reads: bool)
        ensures
            reads == self.spec_reads_environment(),
    {
        match self {
            SdkVersion::Any | SdkVersion::Env => true,
            _ => false,
        }
    }

    /// Returns the registry locations that a resolution of this selector may
    /// look up, in the order in which it does.
    pub fn locations(self) -> (locations: Vec<Location>)
        ensures
            locations@ == self.spec_locations(),
    {
        let locations = match self {
            SdkVersion::Any => vec![
                Location::V10_0,
                Location::V8_1A,
                Location::V8_1,
                Location::V8_0A,
                Location::V8_0,
                Location::V7_1A,
                Location::V7_1,
                Location::V7_0A,
                Location::V7_0,
                Location::V6_1A,
                Location::V6_1,
                Location::V6_0A,
                Location::V6_0,
            ],
            SdkVersion::Env => vec![],
            SdkVersion::V10_0 => vec![Location::V10_0],
            SdkVersion::V8_1 => vec![Location::V8_1A, Location::V8_1],
            SdkVersion::V8_0 => vec![Location::V8_0A, Location::V8_0],
            SdkVersion::V7_1 => vec![Location::V7_1A, Location::V7_1],
            SdkVersion::V7_0 => vec![Location::V7_0A, Location::V7_0],
            SdkVersion::V6_1 => vec![Location::V6_1A, Location::V6_1],
            SdkVersion::V6_0 => vec![Location::V6_0A, Location::V6_0],
        };
        assert(locations@ =~= self.spec_locations());
        locations
    }
}

} // verus!
