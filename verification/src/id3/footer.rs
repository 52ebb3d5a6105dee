use vstd::prelude::*;

use crate::id3::protocol_header::{Flag, HeaderView, ProtocolHeader};
use crate::id3::version::Version;

verus! {

/// The ten-byte footer that may close an ID3v2 tag; it repeats the header.
#[derive(Debug)]
pub struct Footer {
    pub identifier: String,
    pub major_version: Version,
    pub revision: u8,
    pub flags: Flag,
    pub size: u32,
}

impl View for Footer {
    type V = HeaderView;

    open spec fn view(&self) -> HeaderView {
        HeaderView {
            identifier: self.identifier@,
            major_version: self.major_version,
            revision: self.revision,
            flags: self.flags,
            size: self.size,
        }
    }
}

impl Footer {
    pub fn new(
        identifier: String,
        major_version: Version,
        revision: u8,
        flags: Flag,
        size: u32,
    ) -> (footer: Footer)
        ensures
            footer@ == (HeaderView {
                identifier: identifier@,
                major_version,
                revision,
                flags,
                size,
            }),
    {
        Footer { identifier, major_version, revision, flags, size }
    }

    /// The footer that holds what `value` holds.
    pub fn from(value: ProtocolHeader) -> (footer: Footer)
        ensures
            footer@ == value@,
    {
        Footer::new(
            value.identifier,
            value.major_version,
            value.revision,
            value.flags,
            value.size,
        )
    }
}

impl Default for Footer {
    fn default() -> (footer: Footer)
        ensures
            footer@ == HeaderView::spec_default(),
    {
        Footer {
            identifier: String::new(),
            major_version: Version::Default,
            revision: 0,
            flags: Flag::default(),
            size: 0,
        }
    }
}

} // verus!
