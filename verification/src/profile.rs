//! The build profile: the one external configuration axis of the shell.

use vstd::prelude::*;

verus! {

/// Whether the shell was built for development or for release. It is resolved
/// once, before anything else runs, and never changes afterwards; it alone
/// decides the set of log sinks and whether the diagnostics-panel self-test
/// runs.
#[derive(Clone, Copy, PartialEq, Eq, Structural, Debug)]
pub enum BuildProfile {
    Debug,
    Release,
}

impl BuildProfile {
    /// True exactly for the development profile.
    pub fn is_debug(&self) -> (r: bool)
        ensures
            r == (*self is Debug),
    {
        match self {
            BuildProfile::Debug => true,
            BuildProfile::Release => false,
        }
    }
}

} // verus!
