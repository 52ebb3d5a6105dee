use vstd::prelude::*;

use crate::id3::version::Version;

verus! {

/// The extended header of an ID3v2 tag. What it says is not interpreted.
#[derive(Debug)]
pub struct ExtendedHeader {
    /// Version of the tag.
    pub ver: Version,
    /// The declared length: number of payload bytes behind the ten bytes of
    /// the extended header.
    pub len: u32,
    /// The four bytes that declare the length, as they were read.
    pub data: Vec<u8>,
    /// The payload, as it was read.
    pub payload: Vec<u8>,
}

/// What an extended header holds.
pub struct ExtendedView {
    pub ver: Version,
    pub len: u32,
    pub data: Seq<u8>,
    pub payload: Seq<u8>,
}

impl ExtendedView {
    /// The extended header of a tag that has none.
    pub open spec fn spec_default() -> ExtendedView {
        ExtendedView { ver: Version::Default, len: 0, data: Seq::empty(), payload: Seq::empty() }
    }
}

impl View for ExtendedHeader {
    type V = ExtendedView;

    open spec fn view(&self) -> ExtendedView {
        ExtendedView { ver: self.ver, len: self.len, data: self.data@, payload: self.payload@ }
    }
}

impl ExtendedHeader {
    /// An extended header whose payload has not been read yet.
    pub fn new(ver: Version, len: u32, data: Vec<u8>) -> (header: ExtendedHeader)
        ensures
            header@ == (ExtendedView { ver, len, data: data@, payload: Seq::empty() }),
    {
        ExtendedHeader { ver, len, data, payload: Vec::new() }
    }
}

impl Default for ExtendedHeader {
    fn default() -> (header: ExtendedHeader)
        ensures
            header@ == ExtendedView::spec_default(),
    {
        ExtendedHeader { ver: Version::Default, len: 0, data: Vec::new(), payload: Vec::new() }
    }
}

} // verus!
