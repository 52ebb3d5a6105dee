use vstd::prelude::*;

use crate::id3::version::Version;

verus! {

/// The four flags of a tag header.
#[allow(non_snake_case)]
#[derive(Clone, Copy, Debug, PartialEq, Eq, Structural)]
pub struct Flag {
    pub Unsynchronisation: bool,
    pub ExtendedHeader: bool,
    pub Experimental: bool,
    pub Footer: bool,
}

impl Flag {
    /// The flags that the flag byte holds in its four highest bits.
    pub open spec fn spec_new(flag: u8) -> Flag {
        Flag {
            Unsynchronisation: flag & 0x80 == 0x80,
            ExtendedHeader: flag & 0x40 == 0x40,
            Experimental: flag & 0x20 == 0x20,
            Footer: flag & 0x10 == 0x10,
        }
    }

    /// No flag set.
    pub open spec fn spec_default() -> Flag {
        Flag {
            Unsynchronisation: false,
            ExtendedHeader: false,
            Experimental: false,
            Footer: false,
        }
    }

    /// The flags that the flag byte of a tag header holds.
    pub fn new(flag: u8) -> (flags: Flag)
        ensures
            flags == Flag::spec_new(flag),
    {
        Flag {
            Unsynchronisation: flag & 0x80 == 0x80,
            ExtendedHeader: flag & 0x40 == 0x40,
            Experimental: flag & 0x20 == 0x20,
            Footer: flag & 0x10 == 0x10,
        }
    }
}

impl Default for Flag {
    fn default() -> (flags: Flag)
        ensures
            flags == Flag::spec_default(),
    {
        Flag {
            Unsynchronisation: false,
            ExtendedHeader: false,
            Experimental: false,
            Footer: false,
        }
    }
}

/// What a tag header or footer holds.
pub struct HeaderView {
    pub identifier: Seq<char>,
    pub major_version: Version,
    pub revision: u8,
    pub flags: Flag,
    pub size: u32,
}

impl HeaderView {
    /// The header of a parser that has read none.
    pub open spec fn spec_default() -> HeaderView {
        HeaderView {
            identifier: Seq::empty(),
            major_version: Version::Default,
            revision: 0,
            flags: Flag::spec_default(),
            size: 0,
        }
    }
}

/// The ten-byte header at the start of an ID3v2 tag.
#[derive(Debug)]
pub struct ProtocolHeader {
    /// The marker, `ID3`.
    pub identifier: String,
    pub major_version: Version,
    pub revision: u8,
    pub flags: Flag,
    /// Number of bytes between the header and the footer or the audio.
    pub size: u32,
}

impl View for ProtocolHeader {
    type V = HeaderView;

    open spec fn view(&self) -> HeaderView {
        HeaderView {
            identifier: self.identifier@,
            major_version: self.major_version,
            revision: self.revision,
            flags: self.flags,
            size: self.size,
        }
    }
}

impl Default for ProtocolHeader {
    fn default() -> (header: ProtocolHeader)
        ensures
            header@ == HeaderView::spec_default(),
    {
        ProtocolHeader {
            identifier: String::new(),
            major_version: Version::Default,
            revision: 0,
            flags: Flag::default(),
            size: 0,
        }
    }
}

} // verus!
