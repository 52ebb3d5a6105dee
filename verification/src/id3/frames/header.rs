use vstd::prelude::*;

use crate::id3::frames::identifiers::IDFactory;
use crate::id3::version::Version;

verus! {

/// The eight bits of one byte, highest first.
pub type Byte = Vec<u8>;

/// The ten-byte header of a frame.
#[derive(Debug)]
pub struct FrameHeader {
    /// The family that the identifier belongs to.
    pub identifier: IDFactory,
    /// Number of payload bytes that follow the header.
    pub size: u32,
    /// The two flag bytes, each split into its bits.
    pub flags: Vec<Byte>,
    /// Version of the tag that holds the frame.
    pub version: Version,
}

} // verus!
