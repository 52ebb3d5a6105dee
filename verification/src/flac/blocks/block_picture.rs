use vstd::prelude::*;

pub use crate::id3::frames::APIC::PicType;

verus! {

/// A picture block. `data` holds the image and, behind it, the lowest byte
/// of the picture type.
#[derive(Debug)]
pub struct BlockPicture {
    pub pic_type: PicType,
    pub mime: String,
    pub description: String,
    pub width: u32,
    pub height: u32,
    pub bit_depth: u32,
    pub index_color_number: u32,
    pub data: Vec<u8>,
    /// The length that the block declares for the image.
    pub size: u32,
}

/// What a picture block holds.
pub struct PictureView {
    pub pic_type: PicType,
    pub mime: Seq<char>,
    pub description: Seq<char>,
    pub width: u32,
    pub height: u32,
    pub bit_depth: u32,
    pub index_color_number: u32,
    pub data: Seq<u8>,
    pub size: u32,
}

impl View for BlockPicture {
    type V = PictureView;

    open spec fn view(&self) -> PictureView {
        PictureView {
            pic_type: self.pic_type,
            mime: self.mime@,
            description: self.description@,
            width: self.width,
            height: self.height,
            bit_depth: self.bit_depth,
            index_color_number: self.index_color_number,
            data: self.data@,
            size: self.size,
        }
    }
}

impl BlockPicture {
    pub fn new(
        pic_type: PicType,
        mime: String,
        description: String,
        width: u32,
        height: u32,
        bit_depth: u32,
        index_color_number: u32,
        data: Vec<u8>,
        size: u32,
    ) -> (block: BlockPicture)
        ensures
            block@ == (PictureView {
                pic_type,
                mime: mime@,
                description: description@,
                width,
                height,
                bit_depth,
                index_color_number,
                data: data@,
                size,
            }),
    {
        BlockPicture {
            pic_type,
            mime,
            description,
            width,
            height,
            bit_depth,
            index_color_number,
            data,
            size,
        }
    }
}

impl Default for BlockPicture {
    fn default() -> (block: BlockPicture)
        ensures
            block@ == (PictureView {
                pic_type: PicType::Other,
                mime: Seq::empty(),
                description: Seq::empty(),
                width: 0,
                height: 0,
                bit_depth: 0,
                index_color_number: 0,
                data: Seq::empty(),
                size: 0,
            }),
    {
        BlockPicture {
            pic_type: PicType::Other,
            mime: String::new(),
            description: String::new(),
            width: 0,
            height: 0,
            bit_depth: 0,
            index_color_number: 0,
            data: Vec::new(),
            size: 0,
        }
    }
}

} // verus!
