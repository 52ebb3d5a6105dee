use music_metadata::flac::blocks::block_application::BlockApplication;
use music_metadata::flac::blocks::block_cue_sheet::{BlockCueSheet, Track, TrackIndex};
use music_metadata::flac::blocks::block_header::{BlockHeader, BlockType};
use music_metadata::flac::blocks::block_picture::{BlockPicture, PicType};
use music_metadata::flac::blocks::block_seektable::{BlockSeekTable, SeekPoint};
use music_metadata::flac::blocks::block_stream_info::BlockStreamInfo;
use music_metadata::flac::blocks::block_vorbis_comment::BlockVorbisComment;
use music_metadata::flac::decoder::{
    parse_block_application, parse_block_cue_sheet, parse_block_header, parse_block_picture,
    parse_block_seektable, parse_flac_marker, parse_stream_info_block, parse_track,
    parse_vorbis_comment, read_utf8, split_comment,
};
use music_metadata::flac::error::FlacError;
use music_metadata::registry::clone_texts;
use music_metadata::FlacParser;

fn stream_info_fixture() -> Vec<u8> {
    let mut bytes = vec![
        0x00, 0x10, 0x00, 0x10, 0x00, 0x00, 0x10, 0x00, 0x00, 0x10, 0x0A, 0xC4, 0x42, 0xF0, 0x00,
        0x00, 0x00, 0x00,
    ];
    bytes.extend_from_slice(&[0; 16]);
    bytes
}

fn comment(text: &[u8]) -> Vec<u8> {
    let mut bytes = (text.len() as u32).to_le_bytes().to_vec();
    bytes.extend_from_slice(text);
    bytes
}

fn vorbis_body(vendor: &[u8], comments: &[&[u8]]) -> Vec<u8> {
    let mut bytes = comment(vendor);
    bytes.extend_from_slice(&(comments.len() as u32).to_le_bytes());
    for c in comments {
        bytes.extend(comment(c));
    }
    bytes
}

fn block(last: bool, kind: u8, body: &[u8]) -> Vec<u8> {
    let first = if last { 0x80 | kind } else { kind };
    let length = body.len() as u32;
    let mut bytes = vec![first, (length >> 16) as u8, (length >> 8) as u8, length as u8];
    bytes.extend_from_slice(body);
    bytes
}

fn picture_body(kind: u32, mime: &[u8], description: &[u8], image: &[u8]) -> Vec<u8> {
    let mut bytes = kind.to_be_bytes().to_vec();
    bytes.extend_from_slice(&(mime.len() as u32).to_be_bytes());
    bytes.extend_from_slice(mime);
    bytes.extend_from_slice(&(description.len() as u32).to_be_bytes());
    bytes.extend_from_slice(description);
    bytes.extend_from_slice(&640u32.to_be_bytes());
    bytes.extend_from_slice(&480u32.to_be_bytes());
    bytes.extend_from_slice(&24u32.to_be_bytes());
    bytes.extend_from_slice(&0u32.to_be_bytes());
    bytes.extend_from_slice(&(image.len() as u32).to_be_bytes());
    bytes.extend_from_slice(image);
    bytes
}

fn track_bytes(offset: u64, number: u8, isrc: &[u8; 12], flags: u8, indices: &[(u64, u8)]) -> Vec<u8> {
    let mut bytes = offset.to_be_bytes().to_vec();
    bytes.push(number);
    bytes.extend_from_slice(isrc);
    bytes.push(flags);
    bytes.extend_from_slice(&[0xEE; 13]);
    bytes.push(indices.len() as u8);
    for (index_offset, index_number) in indices {
        bytes.extend_from_slice(&index_offset.to_be_bytes());
        bytes.push(*index_number);
        bytes.extend_from_slice(&[0xDD; 3]);
    }
    bytes
}

fn cue_sheet_body(is_cd: bool, tracks: &[Vec<u8>]) -> Vec<u8> {
    let mut bytes: Vec<u8> = b"1234567890123".to_vec();
    bytes.resize(128, 0);
    bytes.extend_from_slice(&88200u64.to_be_bytes());
    bytes.push(if is_cd { 0x80 } else { 0x7F });
    bytes.extend_from_slice(&[0xCC; 258]);
    bytes.push(tracks.len() as u8);
    for t in tracks {
        bytes.extend_from_slice(t);
    }
    bytes
}

#[test]
fn marker_is_exactly_flac() {
    assert_eq!(parse_flac_marker(b"fLaC"), Ok(()));
    assert_eq!(parse_flac_marker(b"flac"), Err(FlacError::WrongHeader));
    assert_eq!(parse_flac_marker(b"OggS"), Err(FlacError::WrongHeader));
    assert_eq!(parse_flac_marker(b"fLa"), Err(FlacError::WrongHeader));
    assert_eq!(parse_flac_marker(b"fLaC!"), Err(FlacError::WrongHeader));
    assert_eq!(parse_flac_marker(b""), Err(FlacError::WrongHeader));
}

#[test]
fn block_header_bits() {
    assert_eq!(
        parse_block_header(&[0x84, 0x00, 0x01, 0x02]),
        Ok(BlockHeader { is_last: true, block_type: BlockType::VORBISCOMMENT, length: 258 })
    );
    assert_eq!(
        parse_block_header(&[0x00, 0x00, 0x00, 0x22]),
        Ok(BlockHeader { is_last: false, block_type: BlockType::STREAMINFO, length: 34 })
    );
    assert_eq!(
        parse_block_header(&[0x01, 0xFF, 0xFF, 0xFF]),
        Ok(BlockHeader::new(false, BlockType::PADDING, 0xFFFFFF))
    );
    let kinds = [
        BlockType::STREAMINFO,
        BlockType::PADDING,
        BlockType::APPLICATION,
        BlockType::SEEKTABLE,
        BlockType::VORBISCOMMENT,
        BlockType::CUESHEET,
        BlockType::PICTURE,
        BlockType::INVALID,
    ];
    for (code, kind) in kinds.iter().enumerate() {
        assert_eq!(parse_block_header(&[code as u8, 0, 0, 0]).unwrap().block_type, *kind);
        assert_eq!(parse_block_header(&[0x80 | code as u8, 0, 0, 0]).unwrap().block_type, *kind);
    }
    assert_eq!(parse_block_header(&[0x7F, 0, 0, 0]).unwrap().block_type, BlockType::INVALID);
    assert_eq!(parse_block_header(&[0xFF, 0, 0, 0]).unwrap().is_last, true);
    assert_eq!(parse_block_header(&[0x84, 0x00, 0x01]), Err(FlacError::Truncated));
    assert_eq!(parse_block_header(&[]), Err(FlacError::Truncated));
    assert_eq!(BlockHeader::default(), BlockHeader::new(false, BlockType::INVALID, 0));
    assert_eq!(BlockType::default(), BlockType::INVALID);
}

#[test]
fn stream_info_bit_packing() {
    let info = parse_stream_info_block(&stream_info_fixture()).unwrap();
    assert_eq!(info.channels, 2);
    assert_eq!(info.bits_per_sample, 16);
    assert_eq!(info.sample_rate, 44100);
    assert_eq!(info.min_block_size, 16);
    assert_eq!(info.max_block_size, 16);
    assert_eq!(info.min_frame_size, 16);
    assert_eq!(info.max_frame_size, 16);
    assert_eq!(info.total_samples, 0);
    assert_eq!(info.md5, 0);
}

#[test]
fn stream_info_fields_across_byte_boundaries() {
    let mut bytes = vec![0x12, 0x34, 0xFF, 0xFF, 0x01, 0x02, 0x03, 0xFF, 0xFE, 0xFD];
    bytes.extend_from_slice(&[0x0B, 0xB8, 0x0B, 0x71, 0x23, 0x45, 0x67, 0x89]);
    bytes.extend_from_slice(&[0, 1, 2, 3, 4, 5, 6, 7, 8, 9, 10, 11, 12, 13, 14, 15]);
    assert_eq!(
        parse_stream_info_block(&bytes),
        Ok(BlockStreamInfo::new(
            0x1234,
            0xFFFF,
            0x010203,
            0xFFFEFD,
            48000,
            6,
            24,
            0x1_2345_6789,
            0x000102030405060708090A0B0C0D0E0F,
        ))
    );
    let mut all_ones = vec![0; 10];
    all_ones.extend_from_slice(&[0xFF; 24]);
    let top = parse_stream_info_block(&all_ones).unwrap();
    assert_eq!(top.sample_rate, 0xFFFFF);
    assert_eq!(top.channels, 8);
    assert_eq!(top.bits_per_sample, 32);
    assert_eq!(top.total_samples, 0xF_FFFF_FFFF);
    assert_eq!(top.md5, u128::MAX);
}

#[test]
fn stream_info_needs_34_bytes() {
    assert_eq!(parse_stream_info_block(&stream_info_fixture()[..33]), Err(FlacError::Truncated));
    assert_eq!(parse_stream_info_block(&[]), Err(FlacError::Truncated));
    let mut longer = stream_info_fixture();
    longer.push(0);
    assert_eq!(parse_stream_info_block(&longer).unwrap().sample_rate, 44100);
    assert_eq!(BlockStreamInfo::default(), BlockStreamInfo::new(0, 0, 0, 0, 0, 0, 0, 0, 0));
}

#[test]
fn application_block() {
    let block = parse_block_application(&[0x41, 0x42, 0x43, 0x44, 1, 2, 3]).unwrap();
    assert_eq!(block.id, 0x41424344);
    assert_eq!(block.data, vec![1, 2, 3]);
    let bare = parse_block_application(&[0, 0, 0, 9]).unwrap();
    assert_eq!((bare.id, bare.data), (9, vec![]));
    assert_eq!(parse_block_application(&[1, 2, 3]).map(|_| ()), Err(FlacError::Truncated));
    let made = BlockApplication::new(5, vec![6]);
    assert_eq!((made.id, made.data), (5, vec![6]));
    assert_eq!(BlockApplication::default().id, 0);
}

#[test]
fn seek_table_records() {
    let mut bytes: Vec<u8> = Vec::new();
    bytes.extend_from_slice(&4096u64.to_be_bytes());
    bytes.extend_from_slice(&1000u64.to_be_bytes());
    bytes.extend_from_slice(&4608u16.to_be_bytes());
    bytes.extend_from_slice(&[0xFF; 8]);
    bytes.extend_from_slice(&[0x11; 10]);
    bytes.extend_from_slice(&8192u64.to_be_bytes());
    bytes.extend_from_slice(&2000u64.to_be_bytes());
    bytes.extend_from_slice(&1152u16.to_be_bytes());
    let table = parse_block_seektable(&bytes).unwrap();
    assert_eq!(
        table.seekpoints,
        vec![
            SeekPoint { sample_number_of_first_sample: 4096, offset: 1000, number_of_samples: 4608 },
            SeekPoint { sample_number_of_first_sample: u64::MAX, offset: 0, number_of_samples: 0 },
            SeekPoint { sample_number_of_first_sample: 8192, offset: 2000, number_of_samples: 1152 },
        ]
    );
}

#[test]
fn seek_table_ends_with_the_last_full_record() {
    assert_eq!(parse_block_seektable(&[]).unwrap().seekpoints, vec![]);
    assert_eq!(parse_block_seektable(&[0; 17]).unwrap().seekpoints, vec![]);
    assert_eq!(parse_block_seektable(&[0; 18]).unwrap().seekpoints, vec![SeekPoint::default()]);
    assert_eq!(parse_block_seektable(&[0; 35]).unwrap().seekpoints.len(), 1);
    assert_eq!(parse_block_seektable(&[0; 36]).unwrap().seekpoints.len(), 2);
    assert_eq!(BlockSeekTable::default().seekpoints, vec![]);
}

#[test]
fn vorbis_comment_multi_value_law() {
    let body = vorbis_body(b"enc 1.0", &[b"ARTIST=A", b"artist=B"]);
    let block = parse_vorbis_comment(&body).unwrap();
    assert_eq!(block.encoder, "enc 1.0");
    assert_eq!(block.tags.len(), 1);
    assert_eq!(block.tags.key_at(0), "ARTIST");
    assert_eq!(block.tags.get("ARTIST"), Some(&vec!["A".to_string(), "B".to_string()]));
    assert_eq!(block.tags.get("artist"), Some(&vec!["A".to_string(), "B".to_string()]));
}

#[test]
fn vorbis_comment_splits_on_the_first_equals_sign() {
    let body = vorbis_body(b"", &[b"TITLE=x=y", b"Empty=", b"=anonymous", "K\u{E9}Y=v\u{4E2D}".as_bytes()]);
    let block = parse_vorbis_comment(&body).unwrap();
    assert_eq!(block.encoder, "");
    assert_eq!(block.tags.get("title"), Some(&vec!["x=y".to_string()]));
    assert_eq!(block.tags.get("EMPTY"), Some(&vec![String::new()]));
    assert_eq!(block.tags.get(""), Some(&vec!["anonymous".to_string()]));
    assert_eq!(block.tags.get("k\u{E9}y"), Some(&vec!["v\u{4E2D}".to_string()]));
    assert_eq!(block.tags.len(), 4);
    assert_eq!(split_comment(b"a=b=c"), Ok(("a".to_string(), "b=c".to_string())));
}

#[test]
fn vorbis_comment_without_comments() {
    let block = parse_vorbis_comment(&vorbis_body(b"v", &[])).unwrap();
    assert_eq!(block.encoder, "v");
    assert_eq!(block.tags.len(), 0);
    // bytes behind the counted comments are not read
    let mut body = vorbis_body(b"v", &[b"A=1"]);
    body.extend_from_slice(&[0xFF, 0xFF]);
    let more = parse_vorbis_comment(&body).unwrap();
    assert_eq!(more.tags.get("a"), Some(&vec!["1".to_string()]));
    assert_eq!(BlockVorbisComment::default().tags.len(), 0);
}

#[test]
fn vorbis_comment_errors() {
    assert_eq!(parse_vorbis_comment(&[1, 0, 0]).map(|_| ()), Err(FlacError::Truncated));
    assert_eq!(parse_vorbis_comment(&[5, 0, 0, 0, b'a']).map(|_| ()), Err(FlacError::Truncated));
    assert_eq!(parse_vorbis_comment(&[1, 0, 0, 0, b'a', 0, 0]).map(|_| ()), Err(FlacError::Truncated));
    assert_eq!(
        parse_vorbis_comment(&vorbis_body(b"\xFF", &[])).map(|_| ()),
        Err(FlacError::MalformedText)
    );
    assert_eq!(
        parse_vorbis_comment(&vorbis_body(b"v", &[b"A=1", b"no separator"])).map(|_| ()),
        Err(FlacError::MalformedComment)
    );
    assert_eq!(
        parse_vorbis_comment(&vorbis_body(b"v", &[b"A=\xC3"])).map(|_| ()),
        Err(FlacError::MalformedText)
    );
    assert_eq!(
        parse_vorbis_comment(&vorbis_body(b"v", &[b"\xFF=1"])).map(|_| ()),
        Err(FlacError::MalformedText)
    );
    // two comments announced, one present
    let mut short = vorbis_body(b"v", &[b"A=1"]);
    short[5] = 2;
    assert_eq!(parse_vorbis_comment(&short).map(|_| ()), Err(FlacError::Truncated));
    // a comment longer than what is left
    let mut long = vorbis_body(b"v", &[b"A=1"]);
    long[9] = 200;
    assert_eq!(parse_vorbis_comment(&long).map(|_| ()), Err(FlacError::Truncated));
    assert_eq!(split_comment(b""), Err(FlacError::MalformedComment));
    assert_eq!(read_utf8(b"ab\xFFcd", 0, 2), Ok("ab".to_string()));
    assert_eq!(read_utf8(b"ab\xFFcd", 1, 3), Err(FlacError::MalformedText));
}

#[test]
fn picture_block() {
    let body = picture_body(3, b"image/png", "caf\u{E9}".as_bytes(), &[0xDE, 0xAD, 0xBE, 0xEF]);
    let picture = parse_block_picture(&body).unwrap();
    assert_eq!(picture.pic_type, PicType::FrontCover);
    assert_eq!(picture.mime, "image/png");
    assert_eq!(picture.description, "caf\u{E9}");
    assert_eq!(picture.width, 640);
    assert_eq!(picture.height, 480);
    assert_eq!(picture.bit_depth, 24);
    assert_eq!(picture.index_color_number, 0);
    assert_eq!(picture.size, 4);
    assert_eq!(picture.data, vec![0xDE, 0xAD, 0xBE, 0xEF, 3]);
}

#[test]
fn picture_block_edges() {
    let empty = parse_block_picture(&picture_body(0, b"", b"", &[])).unwrap();
    assert_eq!(empty.pic_type, PicType::Other);
    assert_eq!((empty.mime.as_str(), empty.description.as_str()), ("", ""));
    assert_eq!(empty.data, vec![0]);
    let undefined = parse_block_picture(&picture_body(0x0000_0103, b"m", b"d", &[1])).unwrap();
    assert_eq!(undefined.pic_type, PicType::Undefined);
    assert_eq!(undefined.data, vec![1, 3]);
    let made = BlockPicture::new(PicType::Media, "m".to_string(), "d".to_string(), 1, 2, 3, 4, vec![5], 6);
    assert_eq!((made.pic_type, made.width, made.height, made.bit_depth), (PicType::Media, 1, 2, 3));
    assert_eq!((made.index_color_number, made.data, made.size), (4, vec![5], 6));
    assert_eq!(BlockPicture::default().pic_type, PicType::Other);
}

#[test]
fn picture_block_errors() {
    let body = picture_body(3, b"image/png", b"d", &[1, 2]);
    assert_eq!(parse_block_picture(&body[..11]).map(|_| ()), Err(FlacError::Truncated));
    assert_eq!(parse_block_picture(&body[..body.len() - 3]).map(|_| ()), Err(FlacError::Truncated));
    assert!(parse_block_picture(&body[..body.len() - 2]).is_ok());
    let mut long_mime = body.clone();
    long_mime[4] = 0xFF;
    assert_eq!(parse_block_picture(&long_mime).map(|_| ()), Err(FlacError::Truncated));
    let mut long_description = body.clone();
    long_description[8 + 9] = 0xFF;
    assert_eq!(parse_block_picture(&long_description).map(|_| ()), Err(FlacError::Truncated));
    assert_eq!(
        parse_block_picture(&picture_body(3, b"\xFF", b"d", &[])).map(|_| ()),
        Err(FlacError::MalformedText)
    );
    assert_eq!(
        parse_block_picture(&picture_body(3, b"m", b"\xC3", &[])).map(|_| ()),
        Err(FlacError::MalformedText)
    );
}

#[test]
fn cue_sheet_with_tracks() {
    let first = track_bytes(0, 1, b"USRC17607839", 0x00, &[(0, 0), (588, 1)]);
    let second = track_bytes(441000, 2, b"            ", 0xC0, &[]);
    let lead_out = track_bytes(882000, 170, b"\0\0\0\0\0\0\0\0\0\0\0\0", 0x40, &[(7, 9)]);
    let body = cue_sheet_body(true, &[first, second, lead_out]);
    let sheet = parse_block_cue_sheet(&body).unwrap();
    assert_eq!(sheet.media_catalog.len(), 128);
    assert!(sheet.media_catalog.starts_with("1234567890123\0"));
    assert_eq!(sheet.lead_in_samples_number, 88200);
    assert!(sheet.is_cd);
    assert_eq!(sheet.tracks_number, 3);
    assert_eq!(sheet.tracks.len(), 3);
    let t = &sheet.tracks[0];
    assert_eq!((t.offset, t.number, t.isrc.as_str()), (0, 1, "USRC17607839"));
    assert_eq!((t.is_audio_track, t.pre_emphasis, t.track_index_points_number), (true, false, 2));
    assert_eq!(t.track_indices, vec![TrackIndex::new(0, 0), TrackIndex::new(588, 1)]);
    let u = &sheet.tracks[1];
    assert_eq!((u.offset, u.number, u.isrc.as_str()), (441000, 2, "            "));
    assert_eq!((u.is_audio_track, u.pre_emphasis), (false, true));
    assert_eq!(u.track_indices, vec![]);
    let v = &sheet.tracks[2];
    assert_eq!((v.offset, v.number), (882000, 170));
    assert_eq!((v.is_audio_track, v.pre_emphasis), (true, true));
    assert_eq!(v.track_indices, vec![TrackIndex { offset: 7, index_point_number: 9 }]);
}

#[test]
fn cue_sheet_without_tracks() {
    let sheet = parse_block_cue_sheet(&cue_sheet_body(false, &[])).unwrap();
    assert!(!sheet.is_cd);
    assert_eq!(sheet.tracks_number, 0);
    assert_eq!(sheet.tracks.len(), 0);
    let made = BlockCueSheet::new("c".to_string(), 1, true, 0, Vec::new());
    assert_eq!((made.media_catalog.as_str(), made.lead_in_samples_number, made.is_cd), ("c", 1, true));
    assert_eq!(BlockCueSheet::default().tracks_number, 0);
    assert_eq!(Track::default().number, 0);
    assert_eq!(TrackIndex::default(), TrackIndex::new(0, 0));
    let track = Track::new(1, 2, "i".to_string(), true, false, 0, Vec::new());
    assert_eq!((track.offset, track.number, track.isrc.as_str()), (1, 2, "i"));
}

#[test]
fn cue_sheet_errors() {
    let body = cue_sheet_body(true, &[track_bytes(0, 1, b"USRC17607839", 0, &[(0, 0)])]);
    assert_eq!(parse_block_cue_sheet(&body[..395]).map(|_| ()), Err(FlacError::Truncated));
    assert_eq!(parse_block_cue_sheet(&body[..396]).map(|_| ()), Err(FlacError::Truncated));
    assert_eq!(parse_block_cue_sheet(&body[..body.len() - 1]).map(|_| ()), Err(FlacError::Truncated));
    let mut two = body.clone();
    two[395] = 2;
    assert_eq!(parse_block_cue_sheet(&two).map(|_| ()), Err(FlacError::Truncated));
    let mut catalog = body.clone();
    catalog[5] = 0xFF;
    assert_eq!(parse_block_cue_sheet(&catalog).map(|_| ()), Err(FlacError::MalformedText));
    let mut isrc = body.clone();
    isrc[396 + 9] = 0xFF;
    assert_eq!(parse_block_cue_sheet(&isrc).map(|_| ()), Err(FlacError::MalformedText));
}

#[test]
fn track_is_read_from_a_place_on() {
    let mut bytes = vec![0xAB; 5];
    bytes.extend(track_bytes(9, 3, b"ABCDEFGHIJKL", 0x80, &[(1, 2), (3, 4), (5, 6)]));
    bytes.extend_from_slice(&[0xAB; 2]);
    let (track, next) = parse_track(&bytes, 5).unwrap();
    assert_eq!(next, 5 + 36 + 36);
    assert_eq!((track.offset, track.number, track.isrc.as_str()), (9, 3, "ABCDEFGHIJKL"));
    assert_eq!(track.is_audio_track, false);
    assert_eq!(track.track_indices.len(), 3);
    assert_eq!(track.track_indices[2], TrackIndex::new(5, 6));
    assert_eq!(parse_track(&bytes, bytes.len()).map(|_| ()), Err(FlacError::Truncated));
    assert_eq!(parse_track(&bytes, bytes.len() + 9).map(|_| ()), Err(FlacError::Truncated));
}

fn flac_file() -> Vec<u8> {
    let mut file = b"fLaC".to_vec();
    file.extend(block(false, 0, &stream_info_fixture()));
    file.extend(block(false, 2, &[0x41, 0x42, 0x43, 0x44, 9]));
    file.extend(block(false, 3, &[0; 18]));
    file.extend(block(false, 4, &vorbis_body(b"enc", &[b"ARTIST=A", b"Title=T", b"artist=B"])));
    file.extend(block(false, 6, &picture_body(3, b"image/png", b"front", &[1, 2])));
    file.extend(block(false, 6, &picture_body(4, b"image/png", b"back", &[3])));
    file.extend(block(false, 5, &cue_sheet_body(true, &[])));
    file.extend(block(false, 9, &[0xFF; 5]));
    file.extend(block(true, 1, &[0; 7]));
    file.extend_from_slice(&[0xFF, 0xF8, 0x00, 0x00]);
    file
}

#[test]
fn parser_reads_every_block_up_to_the_last() {
    let mut parser = FlacParser::new(flac_file());
    assert_eq!(parser.parse(), Ok(()));
    assert_eq!(parser.stream_info.sample_rate, 44100);
    assert_eq!(parser.stream_info.channels, 2);
    assert_eq!(parser.stream_info.bits_per_sample, 16);
    assert_eq!(parser.application.id, 0x41424344);
    assert_eq!(parser.application.data, vec![9]);
    assert_eq!(parser.seek_table.seekpoints, vec![SeekPoint::default()]);
    assert_eq!(parser.vorbis_comment.encoder, "enc");
    assert_eq!(parser.picture.len(), 2);
    assert_eq!(parser.picture[0].description, "front");
    assert_eq!(parser.picture[0].data, vec![1, 2, 3]);
    assert_eq!(parser.picture[1].pic_type, PicType::BackCover);
    assert_eq!(parser.picture[1].data, vec![3, 4]);
    assert!(parser.cue_sheet.is_cd);
    assert_eq!(parser.padding_length, 7);
    assert_eq!(parser.source.position(), flac_file().len() - 4);
}

#[test]
fn parser_get_and_get_all() {
    let mut parser = FlacParser::new(flac_file());
    assert_eq!(parser.get("artist"), None);
    assert_eq!(parser.parse(), Ok(()));
    assert_eq!(parser.get("artist"), Some(vec!["A".to_string(), "B".to_string()]));
    assert_eq!(parser.get("ARTIST"), Some(vec!["A".to_string(), "B".to_string()]));
    assert_eq!(parser.get("TITLE"), Some(vec!["T".to_string()]));
    assert_eq!(parser.get("ALBUM"), None);
    assert_eq!(
        parser.get_all(),
        (
            vec!["ARTIST".to_string(), "TITLE".to_string()],
            vec![vec!["A".to_string(), "B".to_string()], vec!["T".to_string()]],
        )
    );
    assert_eq!(clone_texts(&vec!["x".to_string()]), vec!["x".to_string()]);
}

#[test]
fn a_later_block_takes_the_place_of_an_earlier_one() {
    let mut file = b"fLaC".to_vec();
    file.extend(block(false, 4, &vorbis_body(b"one", &[b"A=1"])));
    file.extend(block(true, 4, &vorbis_body(b"two", &[b"B=2"])));
    let mut parser = FlacParser::new(file);
    assert_eq!(parser.parse(), Ok(()));
    assert_eq!(parser.vorbis_comment.encoder, "two");
    assert_eq!(parser.get("A"), None);
    assert_eq!(parser.get("B"), Some(vec!["2".to_string()]));
}

#[test]
fn a_file_without_marker_leaves_the_parser_empty() {
    let mut parser = FlacParser::new(b"ID3\x04\0\0\0\0\0\0 and more".to_vec());
    assert_eq!(parser.parse(), Ok(()));
    assert_eq!(parser.stream_info, BlockStreamInfo::default());
    assert_eq!(parser.picture.len(), 0);
    assert_eq!(parser.get_all(), (vec![], vec![]));
}

#[test]
fn parser_faults_discard_what_was_read() {
    let mut cut = flac_file();
    cut.truncate(4 + 38 + 9 + 10);
    let mut parser = FlacParser::new(cut);
    assert_eq!(parser.parse(), Err(FlacError::UnexpectedEnd));
    assert_eq!(parser.stream_info, BlockStreamInfo::default());
    assert_eq!(parser.application.id, 0);
    assert_eq!(parser.application.data, vec![]);

    let mut no_last = b"fLaC".to_vec();
    no_last.extend(block(false, 0, &stream_info_fixture()));
    let mut second = FlacParser::new(no_last);
    assert_eq!(second.parse(), Err(FlacError::UnexpectedEnd));
    assert_eq!(second.stream_info.sample_rate, 0);

    let mut bad = b"fLaC".to_vec();
    bad.extend(block(false, 0, &stream_info_fixture()));
    bad.extend(block(true, 4, &vorbis_body(b"v", &[b"no separator"])));
    let mut third = FlacParser::new(bad);
    assert_eq!(third.parse(), Err(FlacError::MalformedComment));
    assert_eq!(third.stream_info.sample_rate, 0);

    let mut short_info = b"fLaC".to_vec();
    short_info.extend(block(true, 0, &[0; 33]));
    assert_eq!(FlacParser::new(short_info).parse(), Err(FlacError::Truncated));
    assert_eq!(FlacParser::new(b"fLa".to_vec()).parse(), Err(FlacError::UnexpectedEnd));
    assert_eq!(FlacParser::new(b"fLaC".to_vec()).parse(), Err(FlacError::UnexpectedEnd));
}

#[test]
fn change_target_resets_the_parser() {
    let mut parser = FlacParser::new(flac_file());
    assert_eq!(parser.parse(), Ok(()));
    let mut other = b"fLaC".to_vec();
    other.extend(block(true, 1, &[0; 3]));
    parser.change_target(other);
    assert_eq!(parser.stream_info, BlockStreamInfo::default());
    assert_eq!(parser.picture.len(), 0);
    assert_eq!(parser.get("artist"), None);
    assert_eq!(parser.padding_length, 0);
    assert_eq!(parser.parse(), Ok(()));
    assert_eq!(parser.padding_length, 3);
    assert_eq!(parser.stream_info.sample_rate, 0);
}

#[test]
fn stream_info_short_name() {
    let info = music_metadata::flac::blocks::block_stream_info::StreamInfo::new(1, 2, 3, 4, 5, 6, 7, 8, 9);
    assert_eq!(info, BlockStreamInfo::new(1, 2, 3, 4, 5, 6, 7, 8, 9));
    assert_eq!((info.min_block_size, info.max_block_size, info.min_frame_size), (1, 2, 3));
    assert_eq!((info.max_frame_size, info.sample_rate, info.channels), (4, 5, 6));
    assert_eq!((info.bits_per_sample, info.total_samples, info.md5), (7, 8, 9));
}
