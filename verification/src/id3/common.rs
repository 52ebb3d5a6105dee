//! The text decoder and the size fields of ID3v2.
use vstd::prelude::*;
use vstd::slice::slice_subrange;
use vstd::utf8::{decode_utf8, valid_utf8};

use crate::id3::error::HeaderError;
use crate::id3::frames::common::Encoding;
use crate::id3::version::Version;
use crate::text::{utf16_text, utf16_to_string, utf8_to_string};
use crate::util::{
    be32, code_units, copy_range, into_big_endian_u16, latin1_text, latin1_to_string, trim_nul,
    trim_units,
};

verus! {

/// The encoding that a selector byte stands for.
pub open spec fn encoding_of(selector: u8) -> Option<Encoding> {
    if selector == 0 {
        Some(Encoding::ISO_8859_1)
    } else if selector == 1 {
        Some(Encoding::UTF16_WITH_BOM)
    } else if selector == 2 {
        Some(Encoding::UTF16_BE)
    } else if selector == 3 {
        Some(Encoding::UTF8)
    } else {
        None
    }
}

/// The byte order that the first two bytes announce: `FF FE` is little
/// endian, anything else big endian.
pub open spec fn refined(payload: Seq<u8>) -> Encoding {
    if payload.len() >= 2 && payload[0] == 0xFF && payload[1] == 0xFE {
        Encoding::UTF16_LE
    } else {
        Encoding::UTF16_BE
    }
}

/// Whether a text in `encoding` is made of 16-bit units.
pub open spec fn is_wide(encoding: Encoding) -> bool {
    encoding == Encoding::UTF16_LE || encoding == Encoding::UTF16_BE
}

/// The text that `payload` holds under `encoding`, `None` for bytes that are
/// not valid in it. Padding zeros around the text do not count. UTF-16 with
/// BOM decodes to nothing: its byte order has to be settled first.
pub open spec fn decoded_text(encoding: Encoding, payload: Seq<u8>) -> Option<Seq<char>> {
    match encoding {
        Encoding::ISO_8859_1 => Some(latin1_text(trim_nul(payload))),
        Encoding::UTF16_BE => utf16_text(trim_units(code_units(payload, false))),
        Encoding::UTF16_LE => utf16_text(trim_units(code_units(payload, true))),
        Encoding::UTF8 => if valid_utf8(trim_nul(payload)) {
            Some(decode_utf8(trim_nul(payload)))
        } else {
            None
        },
        Encoding::UTF16_WITH_BOM => Some(Seq::<char>::empty()),
    }
}

/// Where the first zero byte at or after `from` stands; the length where
/// there is none.
pub open spec fn scan_narrow(payload: Seq<u8>, from: int) -> int
    decreases payload.len() - from,
{
    if from < 0 || from >= payload.len() {
        payload.len() as int
    } else if payload[from] == 0 {
        from
    } else {
        scan_narrow(payload, from + 1)
    }
}

/// Where the first pair of zero bytes stands among the pairs that start at
/// `from`, `from + 2`, ...; the length where there is none.
pub open spec fn scan_wide(payload: Seq<u8>, from: int) -> int
    decreases payload.len() - from,
{
    if from < 0 || from + 1 >= payload.len() {
        payload.len() as int
    } else if payload[from] == 0 && payload[from + 1] == 0 {
        from
    } else {
        scan_wide(payload, from + 2)
    }
}

/// Where the terminator of a text in `encoding` stands in `payload`; the
/// length where there is none.
pub open spec fn terminator_at(payload: Seq<u8>, encoding: Encoding) -> int {
    if is_wide(encoding) {
        scan_wide(payload, 0)
    } else {
        scan_narrow(payload, 0)
    }
}

/// Length of the terminator of a text in `encoding`.
pub open spec fn terminator_len(encoding: Encoding) -> int {
    if is_wide(encoding) {
        2
    } else {
        1
    }
}

/// A decoded text, or the word `null` in place of an empty one.
pub open spec fn or_null(text: Seq<char>) -> Seq<char> {
    if text.len() == 0 {
        "null"@
    } else {
        text
    }
}

/// The bytes of a terminated field that stand before its terminator, as they
/// are handed to the decoder.
pub open spec fn terminated_bytes(payload: Seq<u8>, encoding: Encoding) -> Seq<u8> {
    payload.take(terminator_at(payload, encoding))
}

/// The text that stands in front of the terminator of `payload`.
pub open spec fn field_text(payload: Seq<u8>, encoding: Encoding) -> Option<Seq<char>> {
    decoded_text(encoding, terminated_bytes(payload, encoding))
}

/// A terminated text field at the start of `payload`: the text and the
/// number of bytes that the field takes, terminator included. A field
/// without terminator takes the whole payload and reads `null`.
pub open spec fn terminated_text(payload: Seq<u8>, encoding: Encoding) -> Result<
    (Seq<char>, int),
    HeaderError,
> {
    if encoding == Encoding::UTF16_WITH_BOM {
        Err(HeaderError::UnrefinedBom)
    } else if terminator_at(payload, encoding) >= payload.len() {
        Ok(("null"@, payload.len() as int))
    } else {
        match field_text(payload, encoding) {
            Some(text) => Ok(
                (or_null(text), terminator_at(payload, encoding) + terminator_len(encoding)),
            ),
            None => Err(HeaderError::MalformedText),
        }
    }
}

/// The number that four size bytes give under ID3v2.4: seven bits from each
/// byte, the first byte highest.
pub open spec fn synchsafe(size: Seq<u8>) -> int {
    (size[0] % 128) * 0x200000 + (size[1] % 128) * 0x4000 + (size[2] % 128) * 0x80 + (size[3]
        % 128)
}

/// The four bytes that give `value` under ID3v2.4, each below 128.
pub open spec fn synchsafe_bytes(value: int) -> Seq<u8> {
    seq![
        ((value / 0x200000) % 128) as u8,
        ((value / 0x4000) % 128) as u8,
        ((value / 0x80) % 128) as u8,
        (value % 128) as u8,
    ]
}

/// The size that four bytes declare in a tag of version `v`.
pub open spec fn size_of(size: Seq<u8>, v: Version) -> int {
    match v {
        Version::V3 => be32(size),
        Version::V4 => synchsafe(size),
        Version::Default => 0,
    }
}

/// Decodes `payload` as a text in `encoding`.
pub fn get_text(encoding: &Encoding, payload: &[u8]) -> (r: Result<String, HeaderError>)
    ensures
        match decoded_text(*encoding, payload@) {
            Some(text) => r matches Ok(s) && s@ == text,
            None => r == Err::<String, HeaderError>(HeaderError::MalformedText),
        },
{
    match encoding {
        Encoding::ISO_8859_1 => Ok(latin1_to_string(payload)),
        Encoding::UTF16_BE => {
            let units = into_big_endian_u16(payload, false);
            decoded_or_malformed(utf16_to_string(units.as_slice()))
        },
        Encoding::UTF16_LE => {
            let units = into_big_endian_u16(payload, true);
            decoded_or_malformed(utf16_to_string(units.as_slice()))
        },
        Encoding::UTF8 => {
            let (from, to) = crate::util::trim_bounds(payload);
            decoded_or_malformed(utf8_to_string(copy_range(payload, from, to)))
        },
        Encoding::UTF16_WITH_BOM => Ok(String::new()),
    }
}

/// What the decoder reports for the outcome of a decoding: the text, or that
/// the bytes were malformed.
pub fn decoded_or_malformed(decoded: Option<String>) -> (r: Result<String, HeaderError>)
    ensures
        match decoded {
            Some(text) => r == Ok::<String, HeaderError>(text),
            None => r == Err::<String, HeaderError>(HeaderError::MalformedText),
        },
{
    match decoded {
        Some(text) => Ok(text),
        None => Err(HeaderError::MalformedText),
    }
}

/// The text itself, or the word `null` for an empty text.
pub fn text_or_null(text: String) -> (r: String)
    ensures
        r@ == or_null(text@),
{
    if text.as_str().is_empty() {
        "null".to_owned()
    } else {
        text
    }
}

/// The encoding that a selector byte names.
pub fn get_encoding(payload: u8) -> (r: Result<Encoding, HeaderError>)
    ensures
        match encoding_of(payload) {
            Some(e) => r == Ok::<Encoding, HeaderError>(e),
            None => r == Err::<Encoding, HeaderError>(HeaderError::UnknownEncoding),
        },
{
    match payload {
        0x00 => Ok(Encoding::ISO_8859_1),
        0x01 => Ok(Encoding::UTF16_WITH_BOM),
        0x02 => Ok(Encoding::UTF16_BE),
        0x03 => Ok(Encoding::UTF8),
        _ => Err(HeaderError::UnknownEncoding),
    }
}

/// Where the terminator of a text in `encoding` stands in `payload`.
pub fn find_terminator(payload: &[u8], encoding: &Encoding) -> (at: usize)
    ensures
        at == terminator_at(payload@, *encoding),
        at <= payload@.len(),
        at < payload@.len() ==> at + terminator_len(*encoding) <= payload@.len(),
{
    let wide = match encoding {
        Encoding::UTF16_LE => true,
        Encoding::UTF16_BE => true,
        _ => false,
    };
    let mut cursor: usize = 0;
    if wide {
        while cursor < payload.len() && payload.len() - cursor >= 2 && !(payload[cursor] == 0
            && payload[cursor + 1] == 0)
            invariant
                cursor <= payload@.len(),
                scan_wide(payload@, 0) == scan_wide(payload@, cursor as int),
            decreases payload@.len() - cursor,
        {
            cursor += 2;
        }
        if payload.len() - cursor < 2 {
            cursor = payload.len();
        }
    } else {
        while cursor < payload.len() && payload[cursor] != 0
            invariant
                cursor <= payload@.len(),
                scan_narrow(payload@, 0) == scan_narrow(payload@, cursor as int),
            decreases payload@.len() - cursor,
        {
            cursor += 1;
        }
    }
    cursor
}

/// Reads the terminated text field at the start of `payload`: the text and
/// the number of bytes taken, terminator included.
pub fn get_text_according_to_encoding(payload: &[u8], encoding: &Encoding) -> (r: Result<
    (String, usize),
    HeaderError,
>)
    ensures
        match terminated_text(payload@, *encoding) {
            Ok((text, taken)) => r matches Ok((s, n)) && s@ == text && n == taken,
            Err(e) => r == Err::<(String, usize), HeaderError>(e),
        },
        r matches Ok((_, n)) ==> n <= payload@.len(),
{
    if let Encoding::UTF16_WITH_BOM = encoding {
        return Err(HeaderError::UnrefinedBom);
    }
    let at = find_terminator(payload, encoding);
    if at >= payload.len() {
        return Ok(("null".to_owned(), payload.len()));
    }
    match get_text(encoding, slice_subrange(payload, 0, at)) {
        Ok(text) => {
            let taken = match encoding {
                Encoding::UTF16_LE => at + 2,
                Encoding::UTF16_BE => at + 2,
                _ => at + 1,
            };
            Ok((text_or_null(text), taken))
        },
        Err(e) => Err(e),
    }
}

/// Settles the byte order of a UTF-16 text from its first two bytes.
pub fn refine_encoding(payload: &[u8]) -> (encoding: Encoding)
    ensures
        encoding == refined(payload@),
{
    if payload.len() >= 2 && payload[0] == 0xFF && payload[1] == 0xFE {
        Encoding::UTF16_LE
    } else {
        Encoding::UTF16_BE
    }
}

/// The size that the first four bytes of `size` declare in a tag of version
/// `v`: a plain big-endian number in version 3, a synchsafe one in version 4.
pub fn get_size(size: &[u8], v: &Version) -> (value: u32)
    requires
        size@.len() >= 4,
    ensures
        value == size_of(size@, *v),
        *v == Version::V4 ==> value <= 0x0FFF_FFFF,
{
    match v {
        Version::V3 => {
            size[0] as u32 * 0x1000000 + size[1] as u32 * 0x10000 + size[2] as u32 * 0x100
                + size[3] as u32
        },
        Version::V4 => {
            let b0: u8 = size[0];
            let b1: u8 = size[1];
            let b2: u8 = size[2];
            let b3: u8 = size[3];
            assert(b0 & 0x7F == b0 % 128) by (bit_vector);
            assert(b1 & 0x7F == b1 % 128) by (bit_vector);
            assert(b2 & 0x7F == b2 % 128) by (bit_vector);
            assert(b3 & 0x7F == b3 % 128) by (bit_vector);
            (b0 & 0x7F) as u32 * 0x200000 + (b1 & 0x7F) as u32 * 0x4000 + (b2 & 0x7F) as u32
                * 0x80 + (b3 & 0x7F) as u32
        },
        Version::Default => 0,
    }
}

/// The four size bytes that declare `value` in a tag of version 4.
pub fn encode_synchsafe(value: u32) -> (bytes: Vec<u8>)
    requires
        value <= 0x0FFF_FFFF,
    ensures
        bytes@ == synchsafe_bytes(value as int),
{
    let mut bytes: Vec<u8> = Vec::new();
    bytes.push(((value / 0x200000) % 128) as u8);
    bytes.push(((value / 0x4000) % 128) as u8);
    bytes.push(((value / 0x80) % 128) as u8);
    bytes.push((value % 128) as u8);
    assert(bytes@ =~= synchsafe_bytes(value as int));
    bytes
}

/// A version 4 size never exceeds 28 bits, whatever the four bytes hold.
pub proof fn lemma_synchsafe_bound(size: Seq<u8>)
    requires
        size.len() >= 4,
    ensures
        0 <= synchsafe(size) <= 0x0FFF_FFFF,
{
}

/// Four bytes whose top bits are clear, decoded as a version 4 size and
/// encoded again, come back unchanged.
pub proof fn lemma_synchsafe_round_trip(size: Seq<u8>)
    requires
        size.len() == 4,
        forall|i: int| 0 <= i < 4 ==> size[i] < 128,
    ensures
        synchsafe_bytes(synchsafe(size)) == size,
{
    let b0 = size[0] as int;
    let b1 = size[1] as int;
    let b2 = size[2] as int;
    let b3 = size[3] as int;
    let v = synchsafe(size);
    assert(v == b0 * 0x200000 + b1 * 0x4000 + b2 * 0x80 + b3);
    assert(v % 128 == b3);
    assert((v / 0x80) % 128 == b2);
    assert((v / 0x4000) % 128 == b1);
    assert((v / 0x200000) % 128 == b0);
    assert(synchsafe_bytes(v) =~= size);
}

/// A size of at most 28 bits, encoded for version 4 and decoded again, comes
/// back unchanged.
pub proof fn lemma_synchsafe_decode_encode(value: int)
    requires
        0 <= value <= 0x0FFF_FFFF,
    ensures
        synchsafe(synchsafe_bytes(value)) == value,
{
}

} // verus!
