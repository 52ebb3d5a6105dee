use vstd::prelude::*;

use crate::util::{bytes_to_text, copy_range, latin1_text};

verus! {

/// The header of an Ogg page.
#[derive(Debug)]
pub struct PageHeader {
    /// The capture pattern, `OggS`.
    pub capture_pattern: String,
    pub structure_version: u8,
    /// Whether the first packet of the page starts in this page.
    pub new_packet: bool,
    /// Whether this is the first page of the stream.
    pub bos: bool,
    /// Whether this is the last page of the stream.
    pub eos: bool,
    pub granule_position: Vec<u8>,
    pub serial_number: Vec<u8>,
    pub page_sequence_number: Vec<u8>,
    pub crc_checksum: Vec<u8>,
    pub number_page_segments: u8,
    /// The lacing values: one length for each segment of the page.
    pub segment_table: Vec<u8>,
}

/// What a page header holds.
pub struct PageView {
    pub capture_pattern: Seq<char>,
    pub structure_version: u8,
    pub new_packet: bool,
    pub bos: bool,
    pub eos: bool,
    pub granule_position: Seq<u8>,
    pub serial_number: Seq<u8>,
    pub page_sequence_number: Seq<u8>,
    pub crc_checksum: Seq<u8>,
    pub number_page_segments: u8,
    pub segment_table: Seq<u8>,
}

impl View for PageHeader {
    type V = PageView;

    open spec fn view(&self) -> PageView {
        PageView {
            capture_pattern: self.capture_pattern@,
            structure_version: self.structure_version,
            new_packet: self.new_packet,
            bos: self.bos,
            eos: self.eos,
            granule_position: self.granule_position@,
            serial_number: self.serial_number@,
            page_sequence_number: self.page_sequence_number@,
            crc_checksum: self.crc_checksum@,
            number_page_segments: self.number_page_segments,
            segment_table: self.segment_table@,
        }
    }
}

/// Whether the first four bytes spell `OggS`.
pub open spec fn is_capture_pattern(fixed: Seq<u8>) -> bool {
    fixed[0] == 0x4F && fixed[1] == 0x67 && fixed[2] == 0x67 && fixed[3] == 0x53
}

/// The page header made of its 27 fixed bytes and its segment table: the
/// capture pattern, the version, the flags, of which the lowest bit is clear
/// where a packet starts with the page, the next marks the first page and the
/// third the last, then granule position, serial number, sequence number and
/// checksum, and the number of segments.
pub open spec fn page_view(fixed: Seq<u8>, table: Seq<u8>) -> PageView {
    PageView {
        capture_pattern: latin1_text(fixed.subrange(0, 4)),
        structure_version: fixed[4],
        new_packet: fixed[5] % 2 == 0,
        bos: (fixed[5] / 2) % 2 == 1,
        eos: (fixed[5] / 4) % 2 == 1,
        granule_position: fixed.subrange(6, 14),
        serial_number: fixed.subrange(14, 18),
        page_sequence_number: fixed.subrange(18, 22),
        crc_checksum: fixed.subrange(22, 26),
        number_page_segments: fixed[26],
        segment_table: table,
    }
}

impl PageHeader {
    /// The page header made of its 27 fixed bytes and its segment table.
    pub fn new(fixed: &[u8], segment_table: Vec<u8>) -> (page: PageHeader)
        requires
            fixed@.len() >= 27,
        ensures
            page@ == page_view(fixed@, segment_table@),
    {
        let flags: u8 = fixed[5];
        PageHeader {
            capture_pattern: bytes_to_text(vstd::slice::slice_subrange(fixed, 0, 4)),
            structure_version: fixed[4],
            new_packet: flags % 2 == 0,
            bos: (flags / 2) % 2 == 1,
            eos: (flags / 4) % 2 == 1,
            granule_position: copy_range(fixed, 6, 14),
            serial_number: copy_range(fixed, 14, 18),
            page_sequence_number: copy_range(fixed, 18, 22),
            crc_checksum: copy_range(fixed, 22, 26),
            number_page_segments: fixed[26],
            segment_table,
        }
    }
}

impl Default for PageHeader {
    fn default() -> (page: PageHeader)
        ensures
            page@ == (PageView {
                capture_pattern: Seq::empty(),
                structure_version: 0,
                new_packet: false,
                bos: false,
                eos: false,
                granule_position: Seq::empty(),
                serial_number: Seq::empty(),
                page_sequence_number: Seq::empty(),
                crc_checksum: Seq::empty(),
                number_page_segments: 0,
                segment_table: Seq::empty(),
            }),
    {
        PageHeader {
            capture_pattern: String::new(),
            structure_version: 0,
            new_packet: false,
            bos: false,
            eos: false,
            granule_position: Vec::new(),
            serial_number: Vec::new(),
            page_sequence_number: Vec::new(),
            crc_checksum: Vec::new(),
            number_page_segments: 0,
            segment_table: Vec::new(),
        }
    }
}

} // verus!
