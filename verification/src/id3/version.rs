use vstd::prelude::*;

verus! {

/// Major version of an ID3v2 tag.
#[derive(Clone, Copy, Debug, PartialEq, Eq, Structural)]
pub enum Version {
    V3,
    V4,
    Default,
}

impl Default for Version {
    fn default() -> (v: Version)
        ensures
            v == Version::Default,
    {
        Version::Default
    }
}

impl Version {
    /// The version number as it is written: 3, 4, or -1 where none is known.
    pub open spec fn spec_number(self) -> int {
        match self {
            Version::V3 => 3,
            Version::V4 => 4,
            Version::Default => -1,
        }
    }

    /// The version number as it is written.
    pub fn number(&self) -> (n: i8)
        ensures
            n == self.spec_number(),
    {
        match self {
            Version::V3 => 3,
            Version::V4 => 4,
            Version::Default => -1,
        }
    }
}

} // verus!
