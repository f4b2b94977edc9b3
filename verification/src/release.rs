use vstd::prelude::*;

verus! {

/// One candidate of the catalog: a release identified by its three-component
/// version number. The engine itself never interprets the version; a release
/// only names the candidate that an oracle verdict or an outcome speaks of.
#[derive(Clone, Copy, PartialEq, Eq, Structural, PartialOrd, Ord, Debug, Hash)]
pub struct Release {
    pub major: u64,
    pub minor: u64,
    pub patch: u64,
}

impl Release {
    pub fn new(major: u64, minor: u64, patch: u64) -> (r: Release)
        ensures
            r == (Release { major, minor, patch }),
    {
        Release { major, minor, patch }
    }
}

} // verus!
