//! Decoders for the marker, the block header and the body of each kind of
//! FLAC metadata block.
use vstd::prelude::*;
use vstd::slice::slice_subrange;
use vstd::utf8::{decode_utf8, valid_utf8};

use crate::flac::blocks::block_application::{ApplicationView, BlockApplication};
use crate::flac::blocks::block_cue_sheet::{
    track_views, BlockCueSheet, CueSheetView, Track, TrackIndex, TrackView,
};
use crate::flac::blocks::block_header::{BlockHeader, BlockType};
use crate::flac::blocks::block_picture::{BlockPicture, PicType, PictureView};
use crate::flac::blocks::block_seektable::{BlockSeekTable, SeekPoint};
use crate::flac::blocks::block_stream_info::BlockStreamInfo;
use crate::flac::blocks::block_vorbis_comment::{BlockVorbisComment, VorbisView};
use crate::flac::error::FlacError;
use crate::registry::{
    lemma_one_list_per_key, lemma_text_entries_insert, text_entries, Entries, TagRegistry,
};
use crate::text::{uppercase_of, utf8_to_string};
use crate::util::{
    be128, be16, be24, be32, be64, copy_range, find_byte, le32, read_be16, read_be24, read_be32,
    read_be64, read_le32, scan_for,
};

verus! {

/// Whether the bytes are the four of the marker `fLaC`.
pub open spec fn is_flac_marker(buffer: Seq<u8>) -> bool {
    buffer.len() == 4 && buffer[0] == 0x66 && buffer[1] == 0x4C && buffer[2] == 0x61 && buffer[3]
        == 0x43
}

/// The header in the first four bytes of `buffer`: the highest bit of the
/// first byte marks the last block, its other seven bits give the kind, and
/// three bytes give the length, highest byte first.
pub open spec fn block_header_of(buffer: Seq<u8>) -> BlockHeader {
    BlockHeader {
        is_last: buffer[0] >= 128,
        block_type: BlockType::spec_from((buffer[0] % 128) as int),
        length: be24(buffer.skip(1)) as u32,
    }
}

/// The stream properties in the first 34 bytes of `buffer`. The eight bytes
/// from the tenth on are one big-endian number whose bits hold, from the top:
/// 20 bits of sample rate, 3 bits of channel count less one, 5 bits of sample
/// width less one, and 36 bits of sample count.
pub open spec fn stream_info_of(buffer: Seq<u8>) -> BlockStreamInfo {
    let packed = be64(buffer.skip(10));
    BlockStreamInfo {
        min_block_size: be16(buffer) as u16,
        max_block_size: be16(buffer.skip(2)) as u16,
        min_frame_size: be24(buffer.skip(4)) as u32,
        max_frame_size: be24(buffer.skip(7)) as u32,
        sample_rate: (packed / 0x1000_0000_0000) as u32,
        channels: ((packed / 0x200_0000_0000) % 8 + 1) as u8,
        bits_per_sample: ((packed / 0x10_0000_0000) % 32 + 1) as u8,
        total_samples: (packed % 0x10_0000_0000) as u64,
        md5: be128(buffer.skip(18)) as u128,
    }
}

/// The body of an application block: four bytes of id, then the data.
pub open spec fn application_of(buffer: Seq<u8>) -> Result<ApplicationView, FlacError> {
    if buffer.len() < 4 {
        Err(FlacError::Truncated)
    } else {
        Ok(ApplicationView { id: be32(buffer) as u32, data: buffer.skip(4) })
    }
}

/// The seek point in the 18 bytes at `at`. The offset and the sample count of
/// a placeholder are not read.
pub open spec fn seek_point_at(buffer: Seq<u8>, at: int) -> SeekPoint {
    let first = be64(buffer.skip(at)) as u64;
    if first == 0xFFFF_FFFF_FFFF_FFFF {
        SeekPoint { sample_number_of_first_sample: first, offset: 0, number_of_samples: 0 }
    } else {
        SeekPoint {
            sample_number_of_first_sample: first,
            offset: be64(buffer.skip(at + 8)) as u64,
            number_of_samples: be16(buffer.skip(at + 16)) as u16,
        }
    }
}

/// The points of a seek table: one for each full record of 18 bytes.
pub open spec fn seek_points_of(buffer: Seq<u8>) -> Seq<SeekPoint> {
    Seq::new(buffer.len() / 18, |i: int| seek_point_at(buffer, 18 * i))
}

/// The text of the bytes from `from` up to `to`, which have to be UTF-8.
pub open spec fn utf8_at(buffer: Seq<u8>, from: int, to: int) -> Result<Seq<char>, FlacError> {
    if valid_utf8(buffer.subrange(from, to)) {
        Ok(decode_utf8(buffer.subrange(from, to)))
    } else {
        Err(FlacError::MalformedText)
    }
}

/// Key and value of one comment, which are parted by the first `=`.
pub open spec fn split_tag(entry: Seq<u8>) -> Result<(Seq<char>, Seq<char>), FlacError> {
    let at = scan_for(entry, 0x3D, 0);
    if at >= entry.len() {
        Err(FlacError::MalformedComment)
    } else {
        match utf8_at(entry, 0, at) {
            Err(e) => Err(e),
            Ok(key) => match utf8_at(entry, at + 1, entry.len() as int) {
                Err(e) => Err(e),
                Ok(value) => Ok((key, value)),
            },
        }
    }
}

/// The comments that stand at `at`, `left` of them, each behind the four
/// bytes of its length. They join `entries` under the upper-case form of
/// their key.
pub open spec fn tags_from(buffer: Seq<u8>, at: int, left: nat, entries: Entries<Seq<char>>) -> Result<
    Entries<Seq<char>>,
    FlacError,
>
    decreases left,
{
    if left == 0 {
        Ok(entries)
    } else if at + 4 > buffer.len() {
        Err(FlacError::Truncated)
    } else {
        let length = le32(buffer.skip(at));
        if at + 4 + length > buffer.len() {
            Err(FlacError::Truncated)
        } else {
            match split_tag(buffer.subrange(at + 4, at + 4 + length)) {
                Err(e) => Err(e),
                Ok((key, value)) => tags_from(
                    buffer,
                    at + 4 + length,
                    (left - 1) as nat,
                    entries.insert(uppercase_of(key), value),
                ),
            }
        }
    }
}

/// The body of a Vorbis comment block: the length of the vendor string, the
/// vendor string, the number of comments, and the comments. The lengths and
/// the number are little-endian.
pub open spec fn vorbis_comment_of(buffer: Seq<u8>) -> Result<VorbisView, FlacError> {
    if buffer.len() < 4 {
        Err(FlacError::Truncated)
    } else {
        let length = le32(buffer);
        if 8 + length > buffer.len() {
            Err(FlacError::Truncated)
        } else {
            match utf8_at(buffer, 4, 4 + length) {
                Err(e) => Err(e),
                Ok(encoder) => match tags_from(
                    buffer,
                    8 + length,
                    le32(buffer.skip(4 + length)) as nat,
                    Entries::empty(),
                ) {
                    Err(e) => Err(e),
                    Ok(entries) => Ok(VorbisView { encoder, entries }),
                },
            }
        }
    }
}

/// The body of a picture block: the picture type, the MIME type and the
/// description, each behind its length, then width, height, colour depth,
/// number of colours and the declared length of the image, all of 32 bits,
/// and the image. The lowest byte of the picture type follows the image in
/// `data`.
pub open spec fn picture_of(buffer: Seq<u8>) -> Result<PictureView, FlacError> {
    if buffer.len() < 12 || 12 + be32(buffer.skip(4)) > buffer.len() {
        Err(FlacError::Truncated)
    } else {
        let at = 12 + be32(buffer.skip(4));
        let described = be32(buffer.skip(at - 4));
        if at + described + 20 > buffer.len() {
            Err(FlacError::Truncated)
        } else {
            match utf8_at(buffer, 8, at - 4) {
                Err(e) => Err(e),
                Ok(mime) => match utf8_at(buffer, at, at + described) {
                    Err(e) => Err(e),
                    Ok(description) => Ok(
                        PictureView {
                            pic_type: PicType::spec_from(be32(buffer)),
                            mime,
                            description,
                            width: be32(buffer.skip(at + described)) as u32,
                            height: be32(buffer.skip(at + described + 4)) as u32,
                            bit_depth: be32(buffer.skip(at + described + 8)) as u32,
                            index_color_number: be32(buffer.skip(at + described + 12)) as u32,
                            data: buffer.skip(at + described + 20).push(buffer[3]),
                            size: be32(buffer.skip(at + described + 16)) as u32,
                        },
                    ),
                },
            }
        }
    }
}

/// The index point in the twelve bytes at `at`: eight bytes of offset, the
/// number, and three bytes that are passed over.
pub open spec fn index_at(buffer: Seq<u8>, at: int) -> TrackIndex {
    TrackIndex { offset: be64(buffer.skip(at)) as u64, index_point_number: buffer[at + 8] }
}

/// Number of bytes that the track at `at` takes: 36, and twelve for each of
/// its index points.
pub open spec fn track_len(buffer: Seq<u8>, at: int) -> int {
    36 + 12 * buffer[at + 35]
}

/// The track at `at`: eight bytes of offset, the number, twelve bytes of
/// ISRC, a byte whose highest bit is clear for audio and whose next bit tells
/// pre-emphasis, thirteen bytes that are passed over, the number of index
/// points, and the index points.
pub open spec fn track_at(buffer: Seq<u8>, at: int) -> Result<TrackView, FlacError> {
    if at + 36 > buffer.len() || at + track_len(buffer, at) > buffer.len() {
        Err(FlacError::Truncated)
    } else {
        match utf8_at(buffer, at + 9, at + 21) {
            Err(e) => Err(e),
            Ok(isrc) => Ok(
                TrackView {
                    offset: be64(buffer.skip(at)) as u64,
                    number: buffer[at + 8],
                    isrc,
                    is_audio_track: buffer[at + 21] < 128,
                    pre_emphasis: (buffer[at + 21] / 64) % 2 == 1,
                    track_index_points_number: buffer[at + 35],
                    track_indices: Seq::new(
                        buffer[at + 35] as nat,
                        |j: int| index_at(buffer, at + 36 + 12 * j),
                    ),
                },
            ),
        }
    }
}

/// The tracks that stand at `at`, `left` of them, behind the tracks `done`.
pub open spec fn tracks_from(buffer: Seq<u8>, at: int, left: nat, done: Seq<TrackView>) -> Result<
    Seq<TrackView>,
    FlacError,
>
    decreases left,
{
    if left == 0 {
        Ok(done)
    } else {
        match track_at(buffer, at) {
            Err(e) => Err(e),
            Ok(track) => tracks_from(
                buffer,
                at + track_len(buffer, at),
                (left - 1) as nat,
                done.push(track),
            ),
        }
    }
}

/// The body of a cue sheet block: 128 bytes of media catalog number, eight
/// bytes of lead-in, a byte whose highest bit tells a compact disc, 258 bytes
/// that are passed over, the number of tracks, and the tracks.
pub open spec fn cue_sheet_of(buffer: Seq<u8>) -> Result<CueSheetView, FlacError> {
    if buffer.len() < 396 {
        Err(FlacError::Truncated)
    } else {
        match utf8_at(buffer, 0, 128) {
            Err(e) => Err(e),
            Ok(media_catalog) => match tracks_from(
                buffer,
                396,
                buffer[395] as nat,
                Seq::empty(),
            ) {
                Err(e) => Err(e),
                Ok(tracks) => Ok(
                    CueSheetView {
                        media_catalog,
                        lead_in_samples_number: be64(buffer.skip(128)) as u64,
                        is_cd: buffer[136] >= 128,
                        tracks_number: buffer[395],
                        tracks,
                    },
                ),
            },
        }
    }
}

/// Checks the four bytes at the start of a file for the marker `fLaC`.
pub fn parse_flac_marker(buffer: &[u8]) -> (r: Result<(), FlacError>)
    ensures
        is_flac_marker(buffer@) ==> r is Ok,
        !is_flac_marker(buffer@) ==> r == Err::<(), FlacError>(FlacError::WrongHeader),
{
    if buffer.len() == 4 && buffer[0] == 0x66 && buffer[1] == 0x4C && buffer[2] == 0x61
        && buffer[3] == 0x43 {
        Ok(())
    } else {
        Err(FlacError::WrongHeader)
    }
}

/// Decodes the four bytes of a block header.
pub fn parse_block_header(buffer: &[u8]) -> (r: Result<BlockHeader, FlacError>)
    ensures
        buffer@.len() >= 4 ==> r == Ok::<BlockHeader, FlacError>(block_header_of(buffer@)),
        buffer@.len() < 4 ==> r == Err::<BlockHeader, FlacError>(FlacError::Truncated),
{
    if buffer.len() < 4 {
        return Err(FlacError::Truncated);
    }
    let first: u8 = buffer[0];
    let block_type: BlockType = match first % 128 {
        0 => BlockType::STREAMINFO,
        1 => BlockType::PADDING,
        2 => BlockType::APPLICATION,
        3 => BlockType::SEEKTABLE,
        4 => BlockType::VORBISCOMMENT,
        5 => BlockType::CUESHEET,
        6 => BlockType::PICTURE,
        _ => BlockType::INVALID,
    };
    Ok(BlockHeader::new(first >= 128, block_type, read_be24(buffer, 1)))
}

/// Decodes the body of a stream info block, which has 34 bytes.
pub fn parse_stream_info_block(buffer: &[u8]) -> (r: Result<BlockStreamInfo, FlacError>)
    ensures
        buffer@.len() >= 34 ==> r == Ok::<BlockStreamInfo, FlacError>(stream_info_of(buffer@)),
        buffer@.len() < 34 ==> r == Err::<BlockStreamInfo, FlacError>(FlacError::Truncated),
{
    if buffer.len() < 34 {
        return Err(FlacError::Truncated);
    }
    let min_block_size: u16 = read_be16(buffer, 0);
    let max_block_size: u16 = read_be16(buffer, 2);
    let min_frame_size: u32 = read_be24(buffer, 4);
    let max_frame_size: u32 = read_be24(buffer, 7);
    let packed: u64 = read_be64(buffer, 10);
    let sample_rate: u32 = (packed / 0x1000_0000_0000) as u32;
    let channels: u8 = ((packed / 0x200_0000_0000) % 8 + 1) as u8;
    let bits_per_sample: u8 = ((packed / 0x10_0000_0000) % 32 + 1) as u8;
    let total_samples: u64 = packed % 0x10_0000_0000;
    let high: u64 = read_be64(buffer, 18);
    let low: u64 = read_be64(buffer, 26);
    assert(buffer@.skip(18).skip(8) =~= buffer@.skip(26));
    assert(buffer@.skip(0) =~= buffer@);
    let md5: u128 = high as u128 * 0x1_0000_0000_0000_0000 + low as u128;
    Ok(
        BlockStreamInfo::new(
            min_block_size,
            max_block_size,
            min_frame_size,
            max_frame_size,
            sample_rate,
            channels,
            bits_per_sample,
            total_samples,
            md5,
        ),
    )
}

/// Decodes the text in the bytes from `from` up to `to`.
pub fn read_utf8(buffer: &[u8], from: usize, to: usize) -> (r: Result<String, FlacError>)
    requires
        from <= to <= buffer@.len(),
    ensures
        match utf8_at(buffer@, from as int, to as int) {
            Ok(text) => r matches Ok(s) && s@ == text,
            Err(e) => r matches Err(x) && x == e,
        },
{
    match utf8_to_string(copy_range(buffer, from, to)) {
        Some(text) => Ok(text),
        None => Err(FlacError::MalformedText),
    }
}

/// Parts one comment into its key and its value at the first `=`.
pub fn split_comment(entry: &[u8]) -> (r: Result<(String, String), FlacError>)
    ensures
        match split_tag(entry@) {
            Ok((key, value)) => r matches Ok((k, v)) && k@ == key && v@ == value,
            Err(e) => r matches Err(x) && x == e,
        },
{
    let at = find_byte(entry, 0x3D);
    if at >= entry.len() {
        return Err(FlacError::MalformedComment);
    }
    let key = match read_utf8(entry, 0, at) {
        Ok(v) => v,
        Err(e) => {
            return Err(e);
        },
    };
    match read_utf8(entry, at + 1, entry.len()) {
        Ok(value) => Ok((key, value)),
        Err(e) => Err(e),
    }
}

/// Decodes the body of a Vorbis comment block.
pub fn parse_vorbis_comment(buf: &[u8]) -> (r: Result<BlockVorbisComment, FlacError>)
    ensures
        match vorbis_comment_of(buf@) {
            Ok(v) => r matches Ok(block) && block.wf() && block@ == v,
            Err(e) => r matches Err(x) && x == e,
        },
{
    let length: usize = buf.len();
    if length < 4 {
        return Err(FlacError::Truncated);
    }
    assert(buf@.skip(0) =~= buf@);
    let encoder_length: u32 = read_le32(buf, 0);
    if length < 8 || encoder_length as usize > length - 8 {
        return Err(FlacError::Truncated);
    }
    let tags_at: usize = 4 + encoder_length as usize;
    let encoder = match read_utf8(buf, 4, tags_at) {
        Ok(v) => v,
        Err(e) => {
            return Err(e);
        },
    };
    let tags_number: u32 = read_le32(buf, tags_at);
    let mut tags: TagRegistry<String> = TagRegistry::new();
    let mut start: usize = tags_at + 4;
    let mut tag_index: u32 = 0;
    let ghost whole = tags_from(buf@, start as int, tags_number as nat, Entries::empty());
    assert(text_entries(tags@).lists =~= Seq::empty());
    while tag_index < tags_number
        invariant
            length == buf@.len(),
            tag_index <= tags_number,
            start <= length,
            tags.wf(),
            vorbis_comment_of(buf@) == (match whole {
                Err(e) => Err::<VorbisView, FlacError>(e),
                Ok(entries) => Ok(VorbisView { encoder: encoder@, entries }),
            }),
            tags_from(
                buf@,
                start as int,
                (tags_number - tag_index) as nat,
                text_entries(tags@),
            ) == whole,
        decreases tags_number - tag_index,
    {
        if length - start < 4 {
            return Err(FlacError::Truncated);
        }
        let tag_length: u32 = read_le32(buf, start);
        if tag_length as usize > length - start - 4 {
            return Err(FlacError::Truncated);
        }
        let end: usize = start + 4 + tag_length as usize;
        let (key, value) = match split_comment(slice_subrange(buf, start + 4, end)) {
            Ok(v) => v,
            Err(e) => {
                return Err(e);
            },
        };
        proof {
            lemma_one_list_per_key(&tags);
            lemma_text_entries_insert(tags@, uppercase_of(key@), value);
        }
        tags.insert(key.as_str(), value);
        start = end;
        tag_index += 1;
    }
    Ok(BlockVorbisComment { encoder, tags })
}

/// Decodes the body of a picture block.
pub fn parse_block_picture(buf: &[u8]) -> (r: Result<BlockPicture, FlacError>)
    ensures
        match picture_of(buf@) {
            Ok(v) => r matches Ok(block) && block@ == v,
            Err(e) => r matches Err(x) && x == e,
        },
{
    let length: usize = buf.len();
    if length < 12 {
        return Err(FlacError::Truncated);
    }
    assert(buf@.skip(0) =~= buf@);
    let type_code: u32 = read_be32(buf, 0);
    let raw_pic_type: u8 = buf[3];
    let mime_length: u32 = read_be32(buf, 4);
    if mime_length as usize > length - 12 {
        return Err(FlacError::Truncated);
    }
    let at: usize = 12 + mime_length as usize;
    let desc_length: u32 = read_be32(buf, at - 4);
    if length - at < 20 || desc_length as usize > length - at - 20 {
        return Err(FlacError::Truncated);
    }
    let fields: usize = at + desc_length as usize;
    let mime = match read_utf8(buf, 8, at - 4) {
        Ok(v) => v,
        Err(e) => {
            return Err(e);
        },
    };
    let description = match read_utf8(buf, at, fields) {
        Ok(v) => v,
        Err(e) => {
            return Err(e);
        },
    };
    let width: u32 = read_be32(buf, fields);
    let height: u32 = read_be32(buf, fields + 4);
    let bit_depth: u32 = read_be32(buf, fields + 8);
    let index_color_number: u32 = read_be32(buf, fields + 12);
    let size: u32 = read_be32(buf, fields + 16);
    let mut data: Vec<u8> = copy_range(buf, fields + 20, length);
    data.push(raw_pic_type);
    Ok(
        BlockPicture::new(
            PicType::from_code(type_code),
            mime,
            description,
            width,
            height,
            bit_depth,
            index_color_number,
            data,
            size,
        ),
    )
}

/// Decodes the body of an application block.
pub fn parse_block_application(buf: &[u8]) -> (r: Result<BlockApplication, FlacError>)
    ensures
        match application_of(buf@) {
            Ok(v) => r matches Ok(block) && block@ == v,
            Err(e) => r matches Err(x) && x == e,
        },
{
    if buf.len() < 4 {
        return Err(FlacError::Truncated);
    }
    assert(buf@.skip(0) =~= buf@);
    let id: u32 = read_be32(buf, 0);
    let data: Vec<u8> = copy_range(buf, 4, buf.len());
    Ok(BlockApplication::new(id, data))
}

/// Decodes the body of a seek table block: one point for each full record of
/// 18 bytes.
pub fn parse_block_seektable(buf: &[u8]) -> (r: Result<BlockSeekTable, FlacError>)
    ensures
        r matches Ok(table) && table@ == seek_points_of(buf@),
{
    let count: usize = buf.len() / 18;
    let mut seekpoints: Vec<SeekPoint> = Vec::new();
    let mut i: usize = 0;
    while i < count
        invariant
            count == buf@.len() / 18,
            18 * count <= buf@.len() <= usize::MAX,
            i <= count,
            seekpoints@ == seek_points_of(buf@).take(i as int),
        decreases count - i,
    {
        let start: usize = 18 * i;
        let snfs: u64 = read_be64(buf, start);
        let seek_point = if snfs == 0xFFFF_FFFF_FFFF_FFFF {
            SeekPoint { sample_number_of_first_sample: snfs, offset: 0, number_of_samples: 0 }
        } else {
            SeekPoint {
                sample_number_of_first_sample: snfs,
                offset: read_be64(buf, start + 8),
                number_of_samples: read_be16(buf, start + 16),
            }
        };
        seekpoints.push(seek_point);
        i += 1;
        assert(seekpoints@ =~= seek_points_of(buf@).take(i as int));
    }
    assert(seekpoints@ =~= seek_points_of(buf@));
    Ok(BlockSeekTable { seekpoints })
}

/// Decodes the track that starts at `at`.
pub fn parse_track(buf: &[u8], at: usize) -> (r: Result<(Track, usize), FlacError>)
    ensures
        match track_at(buf@, at as int) {
            Ok(v) => r matches Ok((track, next)) && track@ == v && next == at + track_len(
                buf@,
                at as int,
            ) && next <= buf@.len(),
            Err(e) => r matches Err(x) && x == e,
        },
{
    let length: usize = buf.len();
    if at > length || length - at < 36 {
        return Err(FlacError::Truncated);
    }
    let track_index_points_number: u8 = buf[at + 35];
    let points: usize = 12 * track_index_points_number as usize;
    if length - at - 36 < points {
        return Err(FlacError::Truncated);
    }
    let isrc = match read_utf8(buf, at + 9, at + 21) {
        Ok(v) => v,
        Err(e) => {
            return Err(e);
        },
    };
    let offset: u64 = read_be64(buf, at);
    let number: u8 = buf[at + 8];
    let flags: u8 = buf[at + 21];
    let is_audio_track: bool = flags < 128;
    let pre_emphasis: bool = (flags / 64) % 2 == 1;
    let mut track_indices: Vec<TrackIndex> = Vec::new();
    let mut j: u8 = 0;
    while j < track_index_points_number
        invariant
            length == buf@.len(),
            at + 36 + 12 * track_index_points_number <= length,
            j <= track_index_points_number,
            track_indices@.len() == j,
            forall|k: int|
                0 <= k < j ==> #[trigger] track_indices@[k] == index_at(buf@, at + 36 + 12 * k),
        decreases track_index_points_number - j,
    {
        let start: usize = at + 36 + 12 * j as usize;
        let index_offset: u64 = read_be64(buf, start);
        let index_point_number: u8 = buf[start + 8];
        track_indices.push(TrackIndex::new(index_offset, index_point_number));
        j += 1;
    }
    let track = Track::new(
        offset,
        number,
        isrc,
        is_audio_track,
        pre_emphasis,
        track_index_points_number,
        track_indices,
    );
    assert(track@.track_indices =~= Seq::new(
        track_index_points_number as nat,
        |j: int| index_at(buf@, at + 36 + 12 * j),
    ));
    Ok((track, at + 36 + points))
}

/// Decodes the body of a cue sheet block.
pub fn parse_block_cue_sheet(buf: &[u8]) -> (r: Result<BlockCueSheet, FlacError>)
    ensures
        match cue_sheet_of(buf@) {
            Ok(v) => r matches Ok(block) && block@ == v,
            Err(e) => r matches Err(x) && x == e,
        },
{
    let length: usize = buf.len();
    if length < 396 {
        return Err(FlacError::Truncated);
    }
    let media_catalog = match read_utf8(buf, 0, 128) {
        Ok(v) => v,
        Err(e) => {
            return Err(e);
        },
    };
    let lead_in_samples_number: u64 = read_be64(buf, 128);
    let is_cd: bool = buf[136] >= 128;
    let tracks_number: u8 = buf[395];
    let mut tracks: Vec<Track> = Vec::new();
    let mut start: usize = 396;
    let mut i: u8 = 0;
    let ghost whole = tracks_from(buf@, 396, tracks_number as nat, Seq::empty());
    assert(track_views(tracks@) =~= Seq::empty());
    while i < tracks_number
        invariant
            length == buf@.len(),
            start <= length,
            i <= tracks_number,
            cue_sheet_of(buf@) == (match whole {
                Err(e) => Err::<CueSheetView, FlacError>(e),
                Ok(tracks) => Ok(
                    CueSheetView {
                        media_catalog: media_catalog@,
                        lead_in_samples_number,
                        is_cd,
                        tracks_number,
                        tracks,
                    },
                ),
            }),
            tracks_from(buf@, start as int, (tracks_number - i) as nat, track_views(tracks@))
                == whole,
        decreases tracks_number - i,
    {
        let (track, next) = match parse_track(buf, start) {
            Ok(v) => v,
            Err(e) => {
                return Err(e);
            },
        };
        assert(track_views(tracks@.push(track)) =~= track_views(tracks@).push(track@));
        tracks.push(track);
        start = next;
        i += 1;
    }
    Ok(BlockCueSheet::new(media_catalog, lead_in_samples_number, is_cd, tracks_number, tracks))
}

} // verus!
