use vstd::prelude::*;

verus! {

/// The kinds of metadata block.
#[derive(Clone, Copy, Debug, PartialEq, Eq, Structural)]
pub enum BlockType {
    STREAMINFO,
    PADDING,
    APPLICATION,
    SEEKTABLE,
    VORBISCOMMENT,
    CUESHEET,
    PICTURE,
    INVALID,
}

impl Default for BlockType {
    fn default() -> (t: BlockType)
        ensures
            t == BlockType::INVALID,
    {
        BlockType::INVALID
    }
}

impl BlockType {
    /// The kind of block that a type code selects.
    pub open spec fn spec_from(code: int) -> BlockType {
        if code == 0 {
            BlockType::STREAMINFO
        } else if code == 1 {
            BlockType::PADDING
        } else if code == 2 {
            BlockType::APPLICATION
        } else if code == 3 {
            BlockType::SEEKTABLE
        } else if code == 4 {
            BlockType::VORBISCOMMENT
        } else if code == 5 {
            BlockType::CUESHEET
        } else if code == 6 {
            BlockType::PICTURE
        } else {
            BlockType::INVALID
        }
    }
}

/// The four-byte header of a metadata block.
#[derive(Clone, Copy, Debug, PartialEq, Eq, Structural)]
pub struct BlockHeader {
    /// Whether this is the last metadata block of the file.
    pub is_last: bool,
    pub block_type: BlockType,
    /// Number of bytes in the body of the block.
    pub length: u32,
}

impl BlockHeader {
    /// The header before any block has been read.
    pub open spec fn spec_default() -> BlockHeader {
        BlockHeader { is_last: false, block_type: BlockType::INVALID, length: 0 }
    }

    pub fn new(is_last: bool, block_type: BlockType, length: u32) -> (header: BlockHeader)
        ensures
            header == (BlockHeader { is_last, block_type, length }),
    {
        BlockHeader { is_last, block_type, length }
    }
}

impl Default for BlockHeader {
    fn default() -> (header: BlockHeader)
        ensures
            header == BlockHeader::spec_default(),
    {
        BlockHeader { is_last: false, block_type: BlockType::INVALID, length: 0 }
    }
}

} // verus!
