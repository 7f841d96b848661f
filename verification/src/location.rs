//! The registry locations under which Windows SDK generations register.

use vstd::prelude::*;

verus! {

/// A registry location, below the machine-wide root, that may hold the
/// registration of one Windows SDK.
///
/// Every generation before 10.0 shipped in two flavours with one version
/// number: one registered under a name that ends in `A` (or `a`), one under the
/// plain name.
#[derive(Clone, Copy, Debug, PartialEq, Eq, Structural)]
pub enum Location {
    /// The Windows 10.0 SDK.
    V10_0,
    /// The suffixed flavour of the Windows 8.1 SDK.
    V8_1A,
    /// The plain flavour of the Windows 8.1 SDK.
    V8_1,
    /// The suffixed flavour of the Windows 8.0 SDK.
    V8_0A,
    /// The plain flavour of the Windows 8.0 SDK.
    V8_0,
    /// The suffixed flavour of the Windows 7.1 SDK.
    V7_1A,
    /// The plain flavour of the Windows 7.1 SDK.
    V7_1,
    /// The suffixed flavour of the Windows 7.0 SDK.
    V7_0A,
    /// The plain flavour of the Windows 7.0 SDK.
    V7_0,
    /// The suffixed flavour of the Windows 6.1 SDK.
    V6_1A,
    /// The plain flavour of the Windows 6.1 SDK.
    V6_1,
    /// The suffixed flavour of the Windows 6.0 SDK.
    V6_0A,
    /// The plain flavour of the Windows 6.0 SDK.
    V6_0,
}

impl Location {
    /// The name of the key, relative to the machine-wide root.
    pub open spec fn spec_path(self) -> Seq<char> {
        match self {
            Location::V10_0 => r"SOFTWARE\Microsoft\Microsoft SDKs\Windows\v10.0"@,
            Location::V8_1A => r"SOFTWARE\Microsoft\Microsoft SDKs\Windows\v8.1A"@,
            Location::V8_1 => r"SOFTWARE\Microsoft\Microsoft SDKs\Windows\v8.1"@,
            Location::V8_0A => r"SOFTWARE\Microsoft\Microsoft SDKs\Windows\v8.0A"@,
            Location::V8_0 => r"SOFTWARE\Microsoft\Microsoft SDKs\Windows\v8.0"@,
            Location::V7_1A => r"SOFTWARE\Microsoft\Microsoft SDKs\Windows\v7.1A"@,
            Location::V7_1 => r"SOFTWARE\Microsoft\Microsoft SDKs\Windows\v7.1"@,
            Location::V7_0A => r"SOFTWARE\Microsoft\Microsoft SDKs\Windows\v7.0a"@,
            Location::V7_0 => r"SOFTWARE\Microsoft\Microsoft SDKs\Windows\v7.0"@,
            Location::V6_1A => r"SOFTWARE\Microsoft\Microsoft SDKs\Windows\v6.1a"@,
            Location::V6_1 => r"SOFTWARE\Microsoft\Microsoft SDKs\Windows\v6.1"@,
            Location::V6_0A => r"SOFTWARE\Microsoft\Microsoft SDKs\Windows\v6.0a"@,
            Location::V6_0 => r"SOFTWARE\Microsoft\Microsoft SDKs\Windows\v6.0"@,
        }
    }

    /// Returns the name of the key, relative to the machine-wide root.
    pub fn path(self) -> (p: &'static str)
        ensures
            p@ == self.spec_path(),
    {
        match self {
            Location::V10_0 => r"SOFTWARE\Microsoft\Microsoft SDKs\Windows\v10.0",
            Location::V8_1A => r"SOFTWARE\Microsoft\Microsoft SDKs\Windows\v8.1A",
            Location::V8_1 => r"SOFTWARE\Microsoft\Microsoft SDKs\Windows\v8.1",
            Location::V8_0A => r"SOFTWARE\Microsoft\Microsoft SDKs\Windows\v8.0A",
            Location::V8_0 => r"SOFTWARE\Microsoft\Microsoft SDKs\Windows\v8.0",
            Location::V7_1A => r"SOFTWARE\Microsoft\Microsoft SDKs\Windows\v7.1A",
            Location::V7_1 => r"SOFTWARE\Microsoft\Microsoft SDKs\Windows\v7.1",
            Location::V7_0A => r"SOFTWARE\Microsoft\Microsoft SDKs\Windows\v7.0a",
            Location::V7_0 => r"SOFTWARE\Microsoft\Microsoft SDKs\Windows\v7.0",
            Location::V6_1A => r"SOFTWARE\Microsoft\Microsoft SDKs\Windows\v6.1a",
            Location::V6_1 => r"SOFTWARE\Microsoft\Microsoft SDKs\Windows\v6.1",
            Location::V6_0A => r"SOFTWARE\Microsoft\Microsoft SDKs\Windows\v6.0a",
            Location::V6_0 => r"SOFTWARE\Microsoft\Microsoft SDKs\Windows\v6.0",
        }
    }
}

} // verus!
