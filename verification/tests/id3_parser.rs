use music_metadata::id3::error::{HeaderError, ID3Error};
use music_metadata::id3::frames::common::TagValue;
use music_metadata::id3::frames::text_infomation_frame::TextInfomationFrame;
use music_metadata::id3::parser::{next_frame, FrameStep};
use music_metadata::id3::version::Version;
use music_metadata::source::ByteSource;
use music_metadata::ID3Parser;

fn frame(id: &[u8; 4], payload: &[u8]) -> Vec<u8> {
    let mut bytes = id.to_vec();
    bytes.extend_from_slice(&[0, 0, 0, payload.len() as u8, 0, 0]);
    bytes.extend_from_slice(payload);
    bytes
}

fn tag(version: u8, flags: u8, declared: u8, body: &[u8]) -> Vec<u8> {
    let mut bytes = vec![b'I', b'D', b'3', version, 0, flags, 0, 0, 0, declared];
    bytes.extend_from_slice(body);
    bytes
}

fn apic_payload() -> Vec<u8> {
    let mut payload: Vec<u8> = vec![0];
    payload.extend_from_slice(b"image/jpeg\0");
    payload.push(3);
    payload.push(0);
    payload.extend_from_slice(&[0xDE, 0xAD, 0xBE, 0xEF]);
    payload
}

#[test]
fn get_is_case_insensitive_and_keeps_insertion_order() {
    let mut parser = ID3Parser::new(Vec::new());
    parser.push(TagValue::TextInformation(TextInfomationFrame::new("TIT2".to_string(), "A".to_string())));
    parser.push(TagValue::TextInformation(TextInfomationFrame::new("tit2".to_string(), "B".to_string())));
    assert_eq!(parser.get("TIT2"), Some(vec!["A".to_string(), "B".to_string()]));
    assert_eq!(parser.get("tit2"), Some(vec!["A".to_string(), "B".to_string()]));
    assert_eq!(parser.get_raw("TiT2"), Some(vec![vec![], vec![]]));
    assert_eq!(parser.get("TALB"), None);
    assert_eq!(parser.get_raw("TALB"), None);
}

#[test]
fn unknown_frame_advances_by_header_and_size() {
    let mut bytes = frame(b"ZZZZ", &[0xAB; 12]);
    bytes.extend_from_slice(&[1, 2, 3]);
    let mut source = ByteSource::new(bytes);
    let step = next_frame(&mut source, &Version::V4);
    assert!(matches!(step, Ok(FrameStep::Skipped(0x5A5A5A5A, 12))));
    assert_eq!(source.position(), 22);
}

#[test]
fn next_frame_decodes_a_known_frame() {
    let mut source = ByteSource::new(frame(b"TIT2", b"\x00Song"));
    match next_frame(&mut source, &Version::V3) {
        Ok(FrameStep::Frame(value, size)) => {
            assert_eq!(size, 5);
            assert_eq!(value.identifier(), "TIT2");
            assert_eq!(value.message(), "Song");
        }
        other => panic!("unexpected step: {:?}", other),
    }
    assert_eq!(source.position(), 15);
}

#[test]
fn next_frame_meets_padding_and_the_end() {
    let mut source = ByteSource::new(vec![0; 10]);
    assert!(matches!(next_frame(&mut source, &Version::V4), Ok(FrameStep::Padding)));
    assert_eq!(source.position(), 10);
    let mut short = ByteSource::new(vec![0; 9]);
    assert!(matches!(next_frame(&mut short, &Version::V4), Err(ID3Error::UnexpectedEnd)));
    let mut cut = ByteSource::new(frame(b"TIT2", b"\x00Song")[..12].to_vec());
    assert!(matches!(next_frame(&mut cut, &Version::V4), Err(ID3Error::UnexpectedEnd)));
    let mut cut_unknown = ByteSource::new(frame(b"ZZZZ", &[0; 12])[..21].to_vec());
    assert!(matches!(next_frame(&mut cut_unknown, &Version::V4), Err(ID3Error::UnexpectedEnd)));
}

#[test]
fn parses_the_frames_of_a_tag() {
    let mut body = frame(b"TIT2", b"\x00Title");
    body.extend(frame(b"TPE1", b"\x03Artist"));
    body.extend(frame(b"TPE1", b"\x00Other"));
    body.extend(frame(b"APIC", &apic_payload()));
    let declared = body.len() as u8;
    let mut parser = ID3Parser::new(tag(4, 0, declared, &body));
    assert_eq!(parser.parse_id3v2(), Ok(()));
    assert_eq!(parser.pheader.identifier, "ID3");
    assert_eq!(parser.pheader.major_version, Version::V4);
    assert_eq!(parser.pheader.size, declared as u32);
    assert_eq!(parser.padding_size, 0);
    assert_eq!(parser.get("tit2"), Some(vec!["Title".to_string()]));
    assert_eq!(parser.get("TPE1"), Some(vec!["Artist".to_string(), "Other".to_string()]));
    assert_eq!(parser.get("TALB"), None);
    assert_eq!(parser.get_raw("APIC"), Some(vec![vec![0xDE, 0xAD, 0xBE, 0xEF]]));
    assert_eq!(parser.get_raw("apic"), Some(vec![vec![0xDE, 0xAD, 0xBE, 0xEF]]));
    assert_eq!(parser.get("APIC"), Some(vec!["null".to_string()]));
    match &parser.registry.get("APIC").unwrap()[0] {
        TagValue::AttachedPicture(picture) => assert_eq!(picture.data.last(), Some(&3)),
        other => panic!("unexpected value: {:?}", other),
    }
}

#[test]
fn padding_stops_the_loop_and_gives_the_residual_length() {
    let frames = frame(b"TIT2", b"\x00T");
    let mut body = frames.clone();
    body.extend_from_slice(&[0, 0, 0, 0]);
    let declared = body.len() as u8;
    let mut file = tag(3, 0, declared, &body);
    // what follows the tag: the start of the audio
    file.extend_from_slice(&[0xFF, 0xFB, 0x90, 0x64, 0x11, 0x22, 0x33, 0x44]);
    let mut parser = ID3Parser::new(file);
    assert_eq!(parser.parse_id3v2(), Ok(()));
    assert_eq!(parser.padding_size, declared as u32 - frames.len() as u32);
    assert_eq!(parser.padding_size, 4);
    assert_eq!(parser.get("TIT2"), Some(vec!["T".to_string()]));
}

#[test]
fn long_padding_is_measured_from_the_sentinel() {
    let frames = frame(b"TALB", b"\x00Album");
    let mut body = frames.clone();
    body.extend_from_slice(&[0; 30]);
    let mut parser = ID3Parser::new(tag(4, 0, body.len() as u8, &body));
    assert_eq!(parser.parse_id3v2(), Ok(()));
    assert_eq!(parser.padding_size, 30);
}

#[test]
fn unknown_frames_are_skipped_without_a_fault() {
    let mut body = frame(b"ZZZZ", &[7; 12]);
    body.extend(frame(b"TIT2", b"\x00after"));
    let mut parser = ID3Parser::new(tag(4, 0, body.len() as u8, &body));
    assert_eq!(parser.parse_id3v2(), Ok(()));
    assert_eq!(parser.get("ZZZZ"), None);
    assert_eq!(parser.get("TIT2"), Some(vec!["after".to_string()]));
    assert_eq!(parser.skipped, vec![(0x5A5A5A5A, 12)]);
    parser.change_target(Vec::new());
    assert_eq!(parser.skipped, vec![]);
}

#[test]
fn rarely_used_frames_are_kept_raw() {
    let body = frame(b"PRIV", &[1, 2, 3]);
    let mut parser = ID3Parser::new(tag(4, 0, body.len() as u8, &body));
    assert_eq!(parser.parse_id3v2(), Ok(()));
    assert_eq!(parser.get_raw("priv"), Some(vec![vec![1, 2, 3]]));
    assert_eq!(parser.get("PRIV"), Some(vec!["null".to_string()]));
}

#[test]
fn a_file_without_tag_leaves_the_parser_empty() {
    let mut parser = ID3Parser::new(b"fLaC\0\0\0\x22 and more".to_vec());
    assert_eq!(parser.parse_id3v2(), Ok(()));
    assert_eq!(parser.get("TIT2"), None);
    assert_eq!(parser.pheader.size, 0);
    assert_eq!(parser.pheader.major_version, Version::Default);
    let mut version_two = ID3Parser::new(tag(2, 0, 0, &[]));
    assert_eq!(version_two.parse_id3v2(), Ok(()));
    assert_eq!(version_two.pheader.identifier, "");
}

#[test]
fn a_short_file_is_an_input_fault() {
    let mut parser = ID3Parser::new(vec![b'I', b'D', b'3']);
    assert_eq!(parser.parse_id3v2(), Err(ID3Error::UnexpectedEnd));
    let mut empty = ID3Parser::new(Vec::new());
    assert_eq!(empty.parse_id3v2(), Err(ID3Error::UnexpectedEnd));
}

#[test]
fn a_fault_discards_what_was_read() {
    let mut body = frame(b"TIT2", b"\x00kept?");
    body.extend(frame(b"TALB", b"\x09bad encoding"));
    let mut parser = ID3Parser::new(tag(4, 0, body.len() as u8, &body));
    assert_eq!(parser.parse_id3v2(), Err(ID3Error::UnknownError(HeaderError::UnknownEncoding)));
    assert_eq!(parser.get("TIT2"), None);
    assert_eq!(parser.pheader.size, 0);
    assert_eq!(parser.pheader.identifier, "");

    let mut malformed = frame(b"TIT2", b"\x00kept?");
    malformed.extend(frame(b"TALB", b"\x03\xFF"));
    let mut second = ID3Parser::new(tag(4, 0, malformed.len() as u8, &malformed));
    assert_eq!(second.parse_id3v2(), Err(ID3Error::UnknownError(HeaderError::MalformedText)));
    assert_eq!(second.get("TIT2"), None);

    let truncated = frame(b"TIT2", b"\x00kept?");
    let mut third = ID3Parser::new(tag(4, 0, truncated.len() as u8 + 40, &truncated));
    assert_eq!(third.parse_id3v2(), Err(ID3Error::UnexpectedEnd));
    assert_eq!(third.get("TIT2"), None);
}

#[test]
fn extended_header_is_read_and_counted() {
    // ten bytes of extended header that declare six more, then one frame
    let mut body = vec![0, 0, 0, 6, 0xAA, 0xBB, 0xCC, 0xDD, 0xEE, 0xFF];
    body.extend_from_slice(&[1, 2, 3, 4, 5, 6]);
    body.extend(frame(b"TIT2", b"\x00T"));
    let mut parser = ID3Parser::new(tag(3, 0x40, body.len() as u8, &body));
    assert_eq!(parser.parse_id3v2(), Ok(()));
    assert!(parser.pheader.flags.ExtendedHeader);
    assert_eq!(parser.eheader.ver, Version::V3);
    assert_eq!(parser.eheader.len, 6);
    assert_eq!(parser.eheader.data, vec![0, 0, 0, 6]);
    assert_eq!(parser.eheader.payload, vec![1, 2, 3, 4, 5, 6]);
    assert_eq!(parser.get("TIT2"), Some(vec!["T".to_string()]));
}

#[test]
fn extended_header_cut_short_is_a_fault() {
    let body = vec![0, 0, 0, 6, 0, 0, 0, 0, 0, 0, 1, 2];
    let mut parser = ID3Parser::new(tag(3, 0x40, 40, &body));
    assert_eq!(parser.parse_id3v2(), Err(ID3Error::UnexpectedEnd));
    assert_eq!(parser.eheader.len, 0);
}

#[test]
fn footer_is_read_behind_the_declared_size() {
    let mut body = frame(b"TIT2", b"\x00T");
    body.extend_from_slice(&[0; 10]);
    let declared = body.len() as u8;
    let mut file = tag(4, 0x10, declared, &body);
    file.extend_from_slice(&[b'3', b'D', b'I', 4, 0, 0x10, 0, 0, 0, declared]);
    let mut parser = ID3Parser::new(file);
    assert_eq!(parser.parse_id3v2(), Ok(()));
    assert_eq!(parser.padding_size, 10);
    assert_eq!(parser.footer.identifier, "3DI");
    assert_eq!(parser.footer.major_version, Version::V4);
    assert_eq!(parser.footer.size, declared as u32);
    assert!(parser.footer.flags.Footer);
}

#[test]
fn footer_that_is_missing_or_wrong() {
    let mut body = frame(b"TIT2", b"\x00T");
    body.extend_from_slice(&[0; 10]);
    let declared = body.len() as u8;
    let mut missing = ID3Parser::new(tag(4, 0x10, declared, &body));
    assert_eq!(missing.parse_id3v2(), Err(ID3Error::UnexpectedEnd));
    assert_eq!(missing.get("TIT2"), None);
    let mut file = tag(4, 0x10, declared, &body);
    file.extend_from_slice(&[0xFF; 10]);
    let mut wrong = ID3Parser::new(file);
    assert_eq!(wrong.parse_id3v2(), Ok(()));
    assert_eq!(wrong.footer.identifier, "");
    assert_eq!(wrong.get("TIT2"), Some(vec!["T".to_string()]));
}

#[test]
fn parsing_twice_gives_the_same() {
    let body = frame(b"TIT2", b"\x00T");
    let mut parser = ID3Parser::new(tag(4, 0, body.len() as u8, &body));
    assert_eq!(parser.parse_id3v2(), Ok(()));
    assert_eq!(parser.parse_id3v2(), Ok(()));
    assert_eq!(parser.get("TIT2"), Some(vec!["T".to_string()]));
}

#[test]
fn change_target_forgets_the_frames() {
    let body = frame(b"TIT2", b"\x00first");
    let mut parser = ID3Parser::new(tag(4, 0, body.len() as u8, &body));
    assert_eq!(parser.parse_id3v2(), Ok(()));
    let other = frame(b"TALB", b"\x00second");
    parser.change_target(tag(4, 0, other.len() as u8, &other));
    assert_eq!(parser.get("TIT2"), None);
    assert_eq!(parser.parse_id3v2(), Ok(()));
    assert_eq!(parser.get("TIT2"), None);
    assert_eq!(parser.get("TALB"), Some(vec!["second".to_string()]));
}

#[test]
fn id3v1_tag_is_cut_at_its_offsets() {
    let mut file: Vec<u8> = vec![9; 20];
    let mut tag: Vec<u8> = b"TAG".to_vec();
    tag.extend_from_slice(&[b't'; 30]);
    tag.extend_from_slice(&[b'a'; 30]);
    tag.extend_from_slice(&[b'l'; 30]);
    tag.extend_from_slice(b"1999");
    tag.extend_from_slice(&[b'c'; 30]);
    tag.push(17);
    assert_eq!(tag.len(), 128);
    file.extend_from_slice(&tag);
    let mut parser = ID3Parser::new(file);
    assert_eq!(parser.parse_id3v1(), Ok(()));
    assert_eq!(parser.id3v1.header, b"TAG".to_vec());
    assert_eq!(parser.id3v1.title, vec![b't'; 30]);
    assert_eq!(parser.id3v1.artist, vec![b'a'; 30]);
    assert_eq!(parser.id3v1.album, vec![b'l'; 30]);
    assert_eq!(parser.id3v1.year, b"1999".to_vec());
    assert_eq!(parser.id3v1.comment, vec![b'c'; 30]);
    assert_eq!(parser.id3v1.genre, 17);
    let mut short = ID3Parser::new(vec![0; 127]);
    assert_eq!(short.parse_id3v1(), Err(ID3Error::UnexpectedEnd));
}

#[test]
fn version_numbers() {
    assert_eq!(Version::V3.number(), 3);
    assert_eq!(Version::V4.number(), 4);
    assert_eq!(Version::Default.number(), -1);
    assert_eq!(Version::default(), Version::Default);
}
