use music_metadata::id3::common::{
    decoded_or_malformed, encode_synchsafe, find_terminator, get_encoding, get_size, get_text,
    get_text_according_to_encoding, refine_encoding, text_or_null,
};
use music_metadata::id3::error::HeaderError;
use music_metadata::id3::frames::common::Encoding;
use music_metadata::id3::version::Version;

#[test]
fn get_encoding_names_the_four_selectors() {
    assert_eq!(get_encoding(0), Ok(Encoding::ISO_8859_1));
    assert_eq!(get_encoding(1), Ok(Encoding::UTF16_WITH_BOM));
    assert_eq!(get_encoding(2), Ok(Encoding::UTF16_BE));
    assert_eq!(get_encoding(3), Ok(Encoding::UTF8));
}

#[test]
fn get_encoding_rejects_other_selectors() {
    assert_eq!(get_encoding(4), Err(HeaderError::UnknownEncoding));
    assert_eq!(get_encoding(0xFF), Err(HeaderError::UnknownEncoding));
}

#[test]
fn refine_encoding_reads_the_byte_order_mark() {
    assert_eq!(refine_encoding(&[0xFF, 0xFE]), Encoding::UTF16_LE);
    assert_eq!(refine_encoding(&[0xFE, 0xFF]), Encoding::UTF16_BE);
    assert_eq!(refine_encoding(&[0x41, 0x00]), Encoding::UTF16_BE);
    assert_eq!(refine_encoding(&[0xFF]), Encoding::UTF16_BE);
    assert_eq!(refine_encoding(&[]), Encoding::UTF16_BE);
}

#[test]
fn get_text_latin1() {
    assert_eq!(get_text(&Encoding::ISO_8859_1, &[0, b'C', b'a', b'f', 0xE9, 0, 0]), Ok("Caf\u{E9}".to_string()));
}

#[test]
fn get_text_utf16_in_both_byte_orders() {
    assert_eq!(
        get_text(&Encoding::UTF16_BE, &[0x00, 0x41, 0x4E, 0x2D, 0x00, 0x00]),
        Ok("A\u{4E2D}".to_string())
    );
    assert_eq!(
        get_text(&Encoding::UTF16_LE, &[0x41, 0x00, 0x2D, 0x4E]),
        Ok("A\u{4E2D}".to_string())
    );
    // a surrogate pair
    assert_eq!(
        get_text(&Encoding::UTF16_BE, &[0xD8, 0x3D, 0xDE, 0x00]),
        Ok("\u{1F600}".to_string())
    );
}

#[test]
fn get_text_utf8_strips_padding_zeros() {
    assert_eq!(get_text(&Encoding::UTF8, &[0, 0xC3, 0xA9, b'!', 0]), Ok("\u{E9}!".to_string()));
    assert_eq!(get_text(&Encoding::UTF8, &[]), Ok(String::new()));
}

#[test]
fn get_text_reports_malformed_text() {
    assert_eq!(get_text(&Encoding::UTF8, &[0xFF, 0x41]), Err(HeaderError::MalformedText));
    assert_eq!(get_text(&Encoding::UTF8, &[0xC3]), Err(HeaderError::MalformedText));
    // a lone high surrogate
    assert_eq!(get_text(&Encoding::UTF16_BE, &[0xD8, 0x00]), Err(HeaderError::MalformedText));
    assert_eq!(get_text(&Encoding::UTF16_LE, &[0x00, 0xDC, 0x41, 0x00]), Err(HeaderError::MalformedText));
}

#[test]
fn get_text_of_unrefined_utf16_is_empty() {
    assert_eq!(get_text(&Encoding::UTF16_WITH_BOM, &[0xFF, 0xFE, 0x41, 0x00]), Ok(String::new()));
}

#[test]
fn terminated_text_single_byte_encodings() {
    assert_eq!(
        get_text_according_to_encoding(b"abc\0def", &Encoding::ISO_8859_1),
        Ok(("abc".to_string(), 4))
    );
    assert_eq!(
        get_text_according_to_encoding(&[0xC3, 0xA9, 0x00, 0x41], &Encoding::UTF8),
        Ok(("\u{E9}".to_string(), 3))
    );
}

#[test]
fn terminated_text_wide_encodings_look_for_a_zero_pair() {
    // 'A' 'B' in little endian: the zero high bytes are no terminator
    assert_eq!(
        get_text_according_to_encoding(&[0x41, 0, 0x42, 0, 0, 0, 0x78], &Encoding::UTF16_LE),
        Ok(("AB".to_string(), 6))
    );
    // U+0100 in big endian ends in a zero byte; the pair after it terminates
    assert_eq!(
        get_text_according_to_encoding(&[0x01, 0x00, 0x00, 0x00, 0x41], &Encoding::UTF16_BE),
        Ok(("\u{100}".to_string(), 4))
    );
}

#[test]
fn terminated_text_empty_reads_null() {
    assert_eq!(
        get_text_according_to_encoding(&[0, 0xDE, 0xAD], &Encoding::ISO_8859_1),
        Ok(("null".to_string(), 1))
    );
    assert_eq!(
        get_text_according_to_encoding(&[0, 0, 0x41, 0], &Encoding::UTF16_LE),
        Ok(("null".to_string(), 2))
    );
}

#[test]
fn terminated_text_without_terminator_takes_everything_and_reads_null() {
    assert_eq!(
        get_text_according_to_encoding(b"abc", &Encoding::ISO_8859_1),
        Ok(("null".to_string(), 3))
    );
    assert_eq!(
        get_text_according_to_encoding(&[], &Encoding::UTF8),
        Ok(("null".to_string(), 0))
    );
    assert_eq!(
        get_text_according_to_encoding(&[0x41, 0, 0x42, 0, 0], &Encoding::UTF16_LE),
        Ok(("null".to_string(), 5))
    );
}

#[test]
fn terminated_text_errors() {
    assert_eq!(
        get_text_according_to_encoding(&[0x41, 0], &Encoding::UTF16_WITH_BOM),
        Err(HeaderError::UnrefinedBom)
    );
    assert_eq!(
        get_text_according_to_encoding(&[0xFF, 0x00], &Encoding::UTF8),
        Err(HeaderError::MalformedText)
    );
}

#[test]
fn find_terminator_positions() {
    assert_eq!(find_terminator(b"ab\0c", &Encoding::UTF8), 2);
    assert_eq!(find_terminator(b"abc", &Encoding::ISO_8859_1), 3);
    assert_eq!(find_terminator(&[0x41, 0, 0, 0, 0], &Encoding::UTF16_LE), 2);
    assert_eq!(find_terminator(&[0x41, 0, 0], &Encoding::UTF16_BE), 3);
}

#[test]
fn text_or_null_replaces_the_empty_text() {
    assert_eq!(text_or_null(String::new()), "null");
    assert_eq!(text_or_null("x".to_string()), "x");
}

#[test]
fn decoded_or_malformed_maps_the_outcome() {
    assert_eq!(decoded_or_malformed(Some("x".to_string())), Ok("x".to_string()));
    assert_eq!(decoded_or_malformed(None), Err(HeaderError::MalformedText));
}

#[test]
fn get_size_by_version() {
    assert_eq!(get_size(&[0x00, 0x00, 0x02, 0x01], &Version::V4), 257);
    assert_eq!(get_size(&[0x00, 0x00, 0x01, 0x01], &Version::V3), 257);
    assert_eq!(get_size(&[0x00, 0x00, 0x02, 0x01], &Version::V3), 513);
    assert_eq!(get_size(&[0x12, 0x34, 0x56, 0x78], &Version::V3), 0x12345678);
    assert_eq!(get_size(&[0x12, 0x34, 0x56, 0x78], &Version::Default), 0);
    assert_eq!(get_size(&[0x7F, 0x7F, 0x7F, 0x7F], &Version::V4), 0x0FFF_FFFF);
}

#[test]
fn synchsafe_size_ignores_top_bits_and_never_exceeds_28_bits() {
    assert_eq!(get_size(&[0xFF, 0xFF, 0xFF, 0xFF], &Version::V4), 0x0FFF_FFFF);
    assert_eq!(get_size(&[0x80, 0x80, 0x80, 0x81], &Version::V4), 1);
}

#[test]
fn synchsafe_round_trip() {
    let samples: [[u8; 4]; 5] =
        [[0, 0, 0, 0], [0, 0, 2, 1], [0x7F, 0x7F, 0x7F, 0x7F], [0x01, 0x00, 0x00, 0x00], [0x12, 0x34, 0x56, 0x78]];
    for bytes in samples.iter() {
        let size = get_size(bytes, &Version::V4);
        assert!(size <= 0x0FFF_FFFF);
        assert_eq!(encode_synchsafe(size), bytes.to_vec());
    }
    assert_eq!(encode_synchsafe(257), vec![0, 0, 2, 1]);
    assert_eq!(get_size(&encode_synchsafe(0x0ABC_DEF0), &Version::V4), 0x0ABC_DEF0);
}
