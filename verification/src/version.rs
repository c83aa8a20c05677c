//! The version that a server reports, and what it tells about the server.

use vstd::prelude::*;

verus! {

/// The `appversion` of a server: four numbers. Sunshine and the servers that descend from it
/// report a negative last number, which the software of Nvidia never does.
#[derive(Debug, Clone, Copy, PartialEq, Eq, Structural)]
pub struct ServerVersion {
    pub major: i32,
    pub minor: i32,
    pub patch: i32,
    pub mini_patch: i32,
}

impl ServerVersion {
    /// Whether the server is Sunshine or descends from it.
    pub open spec fn sunshine_like(self) -> bool {
        self.mini_patch < 0
    }

    /// Whether the server is Sunshine or descends from it.
    pub fn is_sunshine_like(&self) -> (r: bool)
        ensures
            r == self.sunshine_like(),
    {
        self.mini_patch < 0
    }

    /// Whether the server is Nvidia GameStream.
    pub fn is_nvidia_software(&self) -> (r: bool)
        ensures
            r == !self.sunshine_like(),
    {
        !self.is_sunshine_like()
    }
}

/// A server is Sunshine or descends from it exactly where its last number is negative; the
/// other three numbers do not matter.
pub proof fn lemma_last_number_decides(one: ServerVersion, other: ServerVersion)
    ensures
        one.mini_patch < 0 ==> one.sunshine_like(),
        one.mini_patch >= 0 ==> !one.sunshine_like(),
        one.mini_patch == other.mini_patch ==> one.sunshine_like() == other.sunshine_like(),
{
}

} // verus!
