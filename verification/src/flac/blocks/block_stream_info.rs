use vstd::prelude::*;

verus! {

/// The properties of the audio stream.
#[derive(Clone, Copy, Debug, PartialEq, Eq, Structural)]
pub struct BlockStreamInfo {
    pub min_block_size: u16,
    pub max_block_size: u16,
    pub min_frame_size: u32,
    pub max_frame_size: u32,
    pub sample_rate: u32,
    pub channels: u8,
    pub bits_per_sample: u8,
    pub total_samples: u64,
    pub md5: u128,
}

/// The stream properties, under their short name.
pub type StreamInfo = BlockStreamInfo;

impl BlockStreamInfo {
    /// The block of a parser that has read none: every field zero.
    pub open spec fn spec_default() -> BlockStreamInfo {
        BlockStreamInfo {
            min_block_size: 0,
            max_block_size: 0,
            min_frame_size: 0,
            max_frame_size: 0,
            sample_rate: 0,
            channels: 0,
            bits_per_sample: 0,
            total_samples: 0,
            md5: 0,
        }
    }

    pub fn new(
        min_block_size: u16,
        max_block_size: u16,
        min_frame_size: u32,
        max_frame_size: u32,
        sample_rate: u32,
        channels: u8,
        bits_per_sample: u8,
        total_samples: u64,
        md5: u128,
    ) -> (block: BlockStreamInfo)
        ensures
            block == (BlockStreamInfo {
                min_block_size,
                max_block_size,
                min_frame_size,
                max_frame_size,
                sample_rate,
                channels,
                bits_per_sample,
                total_samples,
                md5,
            }),
    {
        BlockStreamInfo {
            min_block_size,
            max_block_size,
            min_frame_size,
            max_frame_size,
            sample_rate,
            channels,
            bits_per_sample,
            total_samples,
            md5,
        }
    }
}

impl Default for BlockStreamInfo {
    fn default() -> (block: BlockStreamInfo)
        ensures
            block == BlockStreamInfo::spec_default(),
    {
        BlockStreamInfo {
            min_block_size: 0,
            max_block_size: 0,
            min_frame_size: 0,
            max_frame_size: 0,
            sample_rate: 0,
            channels: 0,
            bits_per_sample: 0,
            total_samples: 0,
            md5: 0,
        }
    }
}

} // verus!
