use music_metadata::util::{
    bytes_to_text, copy_range, find_byte, into_big_endian_u16, latin1_to_string, map_to_binary,
    parse_4_bytes_with_big_endian, parse_4_bytes_with_little_endian,
    parse_8_bytes_with_big_endian, read_be16, read_be24, read_be32, read_be64, read_le32,
    trim_bounds, update_start_end,
};

#[test]
fn map_to_binary_splits_bytes_highest_bit_first() {
    let bits = map_to_binary(&[0xA5, 0x00, 0xFF]);
    assert_eq!(
        bits,
        vec![
            vec![1, 0, 1, 0, 0, 1, 0, 1],
            vec![0, 0, 0, 0, 0, 0, 0, 0],
            vec![1, 1, 1, 1, 1, 1, 1, 1],
        ]
    );
    assert_eq!(map_to_binary(&[]), Vec::<Vec<u8>>::new());
}

#[test]
fn into_big_endian_u16_pairs_bytes_in_either_order() {
    assert_eq!(into_big_endian_u16(&[0x00, 0x41, 0x30, 0x42], false), vec![0x0041, 0x3042]);
    assert_eq!(into_big_endian_u16(&[0x41, 0x00, 0x42, 0x30], true), vec![0x0041, 0x3042]);
}

#[test]
fn into_big_endian_u16_drops_trailing_zero_units_and_odd_byte() {
    assert_eq!(into_big_endian_u16(&[0x00, 0x41, 0x00, 0x00, 0x00, 0x00], false), vec![0x0041]);
    assert_eq!(into_big_endian_u16(&[0x00, 0x00, 0x00, 0x41], false), vec![0x0000, 0x0041]);
    assert_eq!(into_big_endian_u16(&[0x00, 0x41, 0x42], false), vec![0x0041]);
    assert_eq!(into_big_endian_u16(&[], true), Vec::<u16>::new());
    assert_eq!(into_big_endian_u16(&[0, 0, 0, 0], true), Vec::<u16>::new());
}

#[test]
fn latin1_to_string_maps_bytes_to_code_points() {
    assert_eq!(latin1_to_string(b"abc"), "abc");
    assert_eq!(latin1_to_string(&[0xE9, 0xFF]), "\u{E9}\u{FF}");
    assert_eq!(latin1_to_string(&[]), "");
}

#[test]
fn latin1_to_string_strips_zeros_at_both_ends_only() {
    assert_eq!(latin1_to_string(&[0, 0, b'a', 0, b'b', 0]), "a\u{0}b");
    assert_eq!(latin1_to_string(&[0, 0, 0]), "");
}

#[test]
fn bytes_to_text_keeps_every_byte() {
    assert_eq!(bytes_to_text(&[0, b'a', 0]), "\u{0}a\u{0}");
    assert_eq!(bytes_to_text(b"eng"), "eng");
}

#[test]
fn trim_bounds_gives_the_kept_range() {
    assert_eq!(trim_bounds(&[0, 0, 1, 0, 2, 0]), (2, 5));
    assert_eq!(trim_bounds(&[0, 0]), (2, 2));
    assert_eq!(trim_bounds(&[]), (0, 0));
    assert_eq!(trim_bounds(&[7]), (0, 1));
}

#[test]
fn four_byte_numbers_in_both_orders() {
    assert_eq!(parse_4_bytes_with_little_endian(&[0x01, 0x02, 0x03, 0x04]), 0x04030201);
    assert_eq!(parse_4_bytes_with_big_endian(&[0x01, 0x02, 0x03, 0x04]), 0x01020304);
    assert_eq!(parse_4_bytes_with_big_endian(&[0xFF, 0xFF, 0xFF, 0xFF]), u32::MAX);
    assert_eq!(parse_4_bytes_with_little_endian(&[0xFF, 0xFF, 0xFF, 0xFF, 0x00]), u32::MAX);
}

#[test]
fn eight_byte_number_big_endian() {
    assert_eq!(
        parse_8_bytes_with_big_endian(&[0x01, 0x02, 0x03, 0x04, 0x05, 0x06, 0x07, 0x08]),
        0x0102030405060708
    );
    assert_eq!(parse_8_bytes_with_big_endian(&[0xFF; 8]), u64::MAX);
}

#[test]
fn positional_readers() {
    let buffer = [0xAA, 0x01, 0x02, 0x03, 0x04, 0x05, 0x06, 0x07, 0x08, 0x09];
    assert_eq!(read_be16(&buffer, 1), 0x0102);
    assert_eq!(read_be24(&buffer, 1), 0x010203);
    assert_eq!(read_be32(&buffer, 1), 0x01020304);
    assert_eq!(read_le32(&buffer, 1), 0x04030201);
    assert_eq!(read_be64(&buffer, 1), 0x0102030405060708);
    assert_eq!(read_be64(&buffer, 2), 0x0203040506070809);
}

#[test]
fn update_start_end_moves_to_the_next_field() {
    let mut start: usize = 0;
    let mut end: usize = 3;
    update_start_end(&mut start, &mut end, 8);
    assert_eq!((start, end), (4, 11));
    update_start_end(&mut start, &mut end, 1);
    assert_eq!((start, end), (12, 12));
}

#[test]
fn copy_range_and_find_byte() {
    assert_eq!(copy_range(&[1, 2, 3, 4], 1, 3), vec![2, 3]);
    assert_eq!(copy_range(&[1, 2, 3, 4], 2, 2), Vec::<u8>::new());
    assert_eq!(find_byte(b"KEY=VALUE=X", b'='), 3);
    assert_eq!(find_byte(b"KEY", b'='), 3);
    assert_eq!(find_byte(b"", b'='), 0);
}
