//! The options and host facts that the tooling's decisions depend on.

use vstd::prelude::*;
use crate::path::PathStyle;

verus! {

/// How much the build tools should print.
#[derive(Clone, Copy, Debug, PartialEq, Eq, Structural)]
pub enum NoiseLevel {
    Polite,
    LoudAndProud,
    FranklyQuitePedantic,
}

/// The build profile.
#[derive(Clone, Copy, Debug, PartialEq, Eq, Structural)]
pub enum Profile {
    Debug,
    Release,
}

impl Profile {
    /// The profile's name in lower case.
    pub open spec fn name(self) -> Seq<char> {
        match self {
            Profile::Debug => "debug"@,
            Profile::Release => "release"@,
        }
    }

    /// The profile's name in lower case.
    pub fn as_str(&self) -> (s: &'static str)
        ensures
            s@ == self.name(),
    {
        match self {
            Profile::Debug => "debug",
            Profile::Release => "release",
        }
    }
}

/// The operating system the tooling runs on.
#[derive(Clone, Copy, Debug, PartialEq, Eq, Structural)]
pub enum HostOs {
    MacOs,
    Linux,
    Windows,
    /// Any other system; it follows the Unix path conventions.
    Other,
}

impl HostOs {
    /// The path conventions of the host.
    pub open spec fn style(self) -> PathStyle {
        if self == HostOs::Windows {
            PathStyle::Windows
        } else {
            PathStyle::Unix
        }
    }

    /// The path conventions of the host.
    pub fn path_style(self) -> (s: PathStyle)
        ensures
            s == self.style(),
    {
        match self {
            HostOs::Windows => PathStyle::Windows,
            _ => PathStyle::Unix,
        }
    }
}

/// Only Windows uses backslash paths; the build mode names are the
/// profile's lower-case name.
pub proof fn law_host_style_and_profile_names(host: HostOs, profile: Profile)
    ensures
        host.style() == PathStyle::Windows <==> host == HostOs::Windows,
        profile == Profile::Debug ==> profile.name() == "debug"@,
        profile == Profile::Release ==> profile.name() == "release"@,
{
}

} // verus!
