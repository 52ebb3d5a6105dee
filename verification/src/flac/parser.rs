//! The FLAC parser: it walks the metadata blocks of one file.
use vstd::prelude::*;

use crate::flac::blocks::block_application::{ApplicationView, BlockApplication};
use crate::flac::blocks::block_cue_sheet::{BlockCueSheet, CueSheetView};
use crate::flac::blocks::block_header::{BlockHeader, BlockType};
use crate::flac::blocks::block_picture::{BlockPicture, PictureView};
use crate::flac::blocks::block_seektable::{BlockSeekTable, SeekPoint};
use crate::flac::blocks::block_stream_info::BlockStreamInfo;
use crate::flac::blocks::block_vorbis_comment::{BlockVorbisComment, VorbisView};
use crate::flac::decoder::{
    application_of, block_header_of, cue_sheet_of, is_flac_marker, parse_block_application,
    parse_block_cue_sheet, parse_block_header, parse_block_picture, parse_block_seektable,
    parse_flac_marker, parse_stream_info_block, parse_vorbis_comment, picture_of, seek_points_of,
    stream_info_of, vorbis_comment_of,
};
use crate::flac::error::FlacError;
use crate::registry::{clone_texts, lemma_find_key, lemma_one_list_per_key, texts};
use crate::text::uppercase_of;
use crate::source::ByteSource;

verus! {

/// Everything that the parser knows of the metadata of a file.
pub struct FlacModel {
    pub stream_info: BlockStreamInfo,
    pub application: ApplicationView,
    pub seek_table: Seq<SeekPoint>,
    pub vorbis_comment: VorbisView,
    pub picture: Seq<PictureView>,
    pub cue_sheet: CueSheetView,
    pub padding_length: u32,
}

impl FlacModel {
    /// What a parser knows before it has read a file, and of a file that is
    /// no FLAC file.
    pub open spec fn empty() -> FlacModel {
        FlacModel {
            stream_info: BlockStreamInfo::spec_default(),
            application: ApplicationView::spec_default(),
            seek_table: Seq::empty(),
            vorbis_comment: VorbisView::spec_default(),
            picture: Seq::empty(),
            cue_sheet: CueSheetView::spec_default(),
            padding_length: 0,
        }
    }
}

/// What each of the picture blocks holds.
pub open spec fn picture_views(list: Seq<BlockPicture>) -> Seq<PictureView> {
    list.map_values(|p: BlockPicture| p@)
}

/// What is known after a block with the header `header` and the body `body`
/// was read, where `model` was known before. A block of each kind but the
/// picture takes the place of the one before it; a picture joins the
/// pictures. A padding block gives its length, and a block of no known kind
/// is passed over.
pub open spec fn apply_block(model: FlacModel, header: BlockHeader, body: Seq<u8>) -> Result<
    FlacModel,
    FlacError,
> {
    match header.block_type {
        BlockType::STREAMINFO => if body.len() >= 34 {
            Ok(FlacModel { stream_info: stream_info_of(body), ..model })
        } else {
            Err(FlacError::Truncated)
        },
        BlockType::PADDING => Ok(FlacModel { padding_length: header.length, ..model }),
        BlockType::APPLICATION => match application_of(body) {
            Ok(application) => Ok(FlacModel { application, ..model }),
            Err(e) => Err(e),
        },
        BlockType::SEEKTABLE => Ok(FlacModel { seek_table: seek_points_of(body), ..model }),
        BlockType::VORBISCOMMENT => match vorbis_comment_of(body) {
            Ok(vorbis_comment) => Ok(FlacModel { vorbis_comment, ..model }),
            Err(e) => Err(e),
        },
        BlockType::CUESHEET => match cue_sheet_of(body) {
            Ok(cue_sheet) => Ok(FlacModel { cue_sheet, ..model }),
            Err(e) => Err(e),
        },
        BlockType::PICTURE => match picture_of(body) {
            Ok(picture) => Ok(FlacModel { picture: model.picture.push(picture), ..model }),
            Err(e) => Err(e),
        },
        BlockType::INVALID => Ok(model),
    }
}

/// The block loop from the place `at`, where `model` is known: four bytes of
/// header, the body of the declared length, and so on up to the block whose
/// header marks it as the last.
pub open spec fn blocks_from(data: Seq<u8>, at: int, model: FlacModel) -> Result<
    FlacModel,
    FlacError,
>
    decreases data.len() - at,
{
    if at < 0 || at + 4 > data.len() {
        Err(FlacError::UnexpectedEnd)
    } else {
        let header = block_header_of(data.subrange(at, at + 4));
        if at + 4 + header.length > data.len() {
            Err(FlacError::UnexpectedEnd)
        } else {
            match apply_block(model, header, data.subrange(at + 4, at + 4 + header.length)) {
                Err(e) => Err(e),
                Ok(next) => if header.is_last {
                    Ok(next)
                } else {
                    blocks_from(data, at + 4 + header.length, next)
                },
            }
        }
    }
}

/// What the bytes of a file hold as their FLAC metadata. A file that does
/// not start with the marker holds the empty metadata. A file that ends
/// before its last metadata block, or holds a corrupt block, holds none.
pub open spec fn flac_model(data: Seq<u8>) -> Result<FlacModel, FlacError> {
    if data.len() < 4 {
        Err(FlacError::UnexpectedEnd)
    } else if !is_flac_marker(data.subrange(0, 4)) {
        Ok(FlacModel::empty())
    } else {
        blocks_from(data, 4, FlacModel::empty())
    }
}

/// Reads the metadata of one FLAC file.
pub struct FlacParser {
    /// The bytes of the file, and how far they have been read.
    pub source: ByteSource,
    pub stream_info: BlockStreamInfo,
    pub application: BlockApplication,
    pub seek_table: BlockSeekTable,
    pub vorbis_comment: BlockVorbisComment,
    pub picture: Vec<BlockPicture>,
    pub cue_sheet: BlockCueSheet,
    /// Length of the padding block.
    pub padding_length: u32,
}

impl FlacParser {
    /// The bytes of the file.
    pub open spec fn data(&self) -> Seq<u8> {
        self.source.bytes()
    }

    /// The invariant of the parser: that of its comment registry.
    pub open spec fn wf(&self) -> bool {
        self.vorbis_comment.wf()
    }

    /// What the parser knows of the metadata.
    pub open spec fn model(&self) -> FlacModel {
        FlacModel {
            stream_info: self.stream_info,
            application: self.application@,
            seek_table: self.seek_table@,
            vorbis_comment: self.vorbis_comment@,
            picture: picture_views(self.picture@),
            cue_sheet: self.cue_sheet@,
            padding_length: self.padding_length,
        }
    }

    /// A parser for the file that holds `data`; nothing is read yet.
    pub fn new(data: Vec<u8>) -> (parser: FlacParser)
        ensures
            parser.wf(),
            parser.data() == data@,
            parser.model() == FlacModel::empty(),
    {
        let parser = FlacParser {
            source: ByteSource::new(data),
            stream_info: BlockStreamInfo::default(),
            application: BlockApplication::default(),
            seek_table: BlockSeekTable::default(),
            vorbis_comment: BlockVorbisComment::default(),
            picture: Vec::new(),
            cue_sheet: BlockCueSheet::default(),
            padding_length: 0,
        };
        assert(parser.model().picture =~= Seq::empty());
        parser
    }

    /// Forgets what was read and goes back to the start of the file.
    fn reset(&mut self)
        ensures
            final(self).wf(),
            final(self).data() == old(self).data(),
            final(self).source.cursor() == 0,
            final(self).model() == FlacModel::empty(),
    {
        self.source.seek_to(0);
        self.application = BlockApplication::default();
        self.stream_info = BlockStreamInfo::default();
        self.seek_table = BlockSeekTable::default();
        self.vorbis_comment = BlockVorbisComment::default();
        self.picture.clear();
        self.cue_sheet = BlockCueSheet::default();
        self.padding_length = 0;
        assert(self.model().picture =~= Seq::empty());
    }

    /// Takes in one block.
    fn take_block(&mut self, header: &BlockHeader, body: &[u8]) -> (r: Result<(), FlacError>)
        requires
            old(self).wf(),
        ensures
            final(self).wf(),
            final(self).source == old(self).source,
            match apply_block(old(self).model(), *header, body@) {
                Ok(m) => r is Ok && final(self).model() == m,
                Err(e) => r == Err::<(), FlacError>(e),
            },
    {
        match header.block_type {
            BlockType::STREAMINFO => {
                self.stream_info = match parse_stream_info_block(body) {
                    Ok(v) => v,
                    Err(e) => {
                        return Err(e);
                    },
                };
            },
            BlockType::PADDING => {
                self.padding_length = header.length;
            },
            BlockType::APPLICATION => {
                self.application = match parse_block_application(body) {
                    Ok(v) => v,
                    Err(e) => {
                        return Err(e);
                    },
                };
            },
            BlockType::SEEKTABLE => {
                self.seek_table = match parse_block_seektable(body) {
                    Ok(v) => v,
                    Err(e) => {
                        return Err(e);
                    },
                };
            },
            BlockType::VORBISCOMMENT => {
                self.vorbis_comment = match parse_vorbis_comment(body) {
                    Ok(v) => v,
                    Err(e) => {
                        return Err(e);
                    },
                };
            },
            BlockType::CUESHEET => {
                self.cue_sheet = match parse_block_cue_sheet(body) {
                    Ok(v) => v,
                    Err(e) => {
                        return Err(e);
                    },
                };
            },
            BlockType::PICTURE => {
                let picture = match parse_block_picture(body) {
                    Ok(v) => v,
                    Err(e) => {
                        return Err(e);
                    },
                };
                assert(picture_views(self.picture@.push(picture)) =~= picture_views(
                    self.picture@,
                ).push(picture@));
                self.picture.push(picture);
            },
            BlockType::INVALID => {},
        }
        Ok(())
    }

    /// Walks the blocks from the start of the file.
    fn read_blocks(&mut self) -> (r: Result<(), FlacError>)
        requires
            old(self).wf(),
            old(self).source.cursor() == 0,
            old(self).model() == FlacModel::empty(),
        ensures
            final(self).wf(),
            final(self).data() == old(self).data(),
            match flac_model(old(self).data()) {
                Ok(m) => r is Ok && final(self).model() == m,
                Err(e) => r == Err::<(), FlacError>(e),
            },
    {
        let ghost data = self.data();
        let marker = match self.source.read_exact(4) {
            Some(b) => b,
            None => {
                return Err(FlacError::UnexpectedEnd);
            },
        };
        if parse_flac_marker(marker.as_slice()).is_err() {
            return Ok(());
        }
        loop
            invariant
                self.wf(),
                self.data() == data,
                data == old(self).data(),
                flac_model(data) == blocks_from(data, self.source.cursor() as int, self.model()),
            decreases data.len() - self.source.cursor(),
        {
            let buffer = match self.source.read_exact(4) {
                Some(b) => b,
                None => {
                    return Err(FlacError::UnexpectedEnd);
                },
            };
            let block_header = match parse_block_header(buffer.as_slice()) {
                Ok(h) => h,
                Err(e) => {
                    return Err(e);
                },
            };
            let body = match self.source.read_exact(block_header.length as usize) {
                Some(b) => b,
                None => {
                    return Err(FlacError::UnexpectedEnd);
                },
            };
            match self.take_block(&block_header, body.as_slice()) {
                Ok(()) => {},
                Err(e) => {
                    return Err(e);
                },
            }
            if block_header.is_last {
                return Ok(());
            }
        }
    }

    /// Reads the metadata blocks of the file. A file without the marker
    /// leaves the parser empty, and so does a fault, which is returned: what
    /// was read before it is not kept.
    pub fn parse(&mut self) -> (r: Result<(), FlacError>)
        ensures
            final(self).wf(),
            final(self).data() == old(self).data(),
            match flac_model(old(self).data()) {
                Ok(m) => r is Ok && final(self).model() == m,
                Err(e) => r == Err::<(), FlacError>(e) && final(self).model()
                    == FlacModel::empty(),
            },
    {
        self.reset();
        match self.read_blocks() {
            Ok(()) => Ok(()),
            Err(e) => {
                self.reset();
                Err(e)
            },
        }
    }

    /// The values of the comments under the key `query`, in the order of the
    /// block. The query is read without regard to case.
    pub fn get(&self, query: &str) -> (r: Option<Vec<String>>)
        ensures
            match self.model().vorbis_comment.entries.lookup(query@) {
                Some(list) => r matches Some(found) && texts(found@) == list,
                None => r is None,
            },
    {
        proof {
            lemma_one_list_per_key(&self.vorbis_comment.tags);
            lemma_find_key(self.vorbis_comment.tags@.keys, uppercase_of(query@), 0);
        }
        match self.vorbis_comment.tags.get(query) {
            Some(list) => Some(clone_texts(list)),
            None => None,
        }
    }

    /// All the keys, in the order in which they first came, and beside each
    /// key its values.
    pub fn get_all(&self) -> (r: (Vec<String>, Vec<Vec<String>>))
        ensures
            texts(r.0@) == self.model().vorbis_comment.entries.keys,
            r.1@.len() == r.0@.len(),
            forall|i: int|
                0 <= i < r.1@.len() ==> texts((#[trigger] r.1@[i])@)
                    == self.model().vorbis_comment.entries.lists[i],
    {
        let mut key_vec: Vec<String> = Vec::new();
        let mut value_vec: Vec<Vec<String>> = Vec::new();
        let count = self.vorbis_comment.tags.len();
        let mut i: usize = 0;
        while i < count
            invariant
                count == self.vorbis_comment.tags@.keys.len(),
                count == self.vorbis_comment.tags@.lists.len(),
                i <= count,
                key_vec@.len() == i,
                value_vec@.len() == i,
                forall|k: int|
                    0 <= k < i ==> (#[trigger] key_vec@[k])@ == self.vorbis_comment.tags@.keys[k],
                forall|k: int|
                    0 <= k < i ==> texts((#[trigger] value_vec@[k])@) == texts(
                        self.vorbis_comment.tags@.lists[k],
                    ),
            decreases count - i,
        {
            key_vec.push(self.vorbis_comment.tags.key_at(i).clone());
            value_vec.push(clone_texts(self.vorbis_comment.tags.list_at(i)));
            i += 1;
        }
        assert(texts(key_vec@) =~= self.model().vorbis_comment.entries.keys);
        (key_vec, value_vec)
    }

    /// Turns the parser to another file, whose bytes are `data`. What was
    /// read of the file before is forgotten.
    pub fn change_target(&mut self, data: Vec<u8>)
        ensures
            final(self).wf(),
            final(self).data() == data@,
            final(self).model() == FlacModel::empty(),
    {
        self.source = ByteSource::new(data);
        self.reset();
    }
}

} // verus!
