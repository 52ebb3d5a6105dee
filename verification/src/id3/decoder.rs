//! Decoders for the parts of an ID3v2 tag: the headers and the payload of
//! each frame family.
use vstd::prelude::*;
use vstd::slice::slice_subrange;

use crate::id3::common::{
    decoded_text, encoding_of, get_encoding, get_size, get_text, get_text_according_to_encoding,
    refine_encoding, refined, size_of, terminated_text,
};
use crate::id3::error::{HeaderError, ID3Error};
use crate::id3::extended_header::{ExtendedHeader, ExtendedView};
use crate::id3::footer::Footer;
use crate::id3::frames::common::{Encoding, TagValue, TagView};
use crate::id3::frames::header::FrameHeader;
use crate::id3::frames::identifiers::{
    code_text, IDFactory, RarelyUsedFrameIdentifier, TextInformationFrameIdentifier,
    URLLinkFrameIdentifier, CODE_APIC, CODE_COMM, CODE_SYLT, CODE_USLT,
};
use crate::id3::frames::rarely_used::{RarelyUsed, RarelyUsedView};
use crate::id3::frames::text_infomation_frame::{TextInfomationFrame, TextView};
use crate::id3::frames::url_link_frame::{URLLinkFrame, UrlView};
use crate::id3::frames::APIC::{ApicView, PicType, APIC};
use crate::id3::frames::COMM::{CommView, COMM};
use crate::id3::frames::SYLT::{SyltView, SYLT};
use crate::id3::frames::TXXX::{TxxxView, TXXX};
use crate::id3::frames::USLT::{UsltView, USLT};
use crate::id3::frames::WXXX::{WxxxView, WXXX};
use crate::id3::protocol_header::{Flag, HeaderView, ProtocolHeader};
use crate::id3::version::Version;
use crate::util::{bits_of, bytes_to_text, copy_range, latin1_text, map_to_binary, Buffer};

verus! {

/// The version that a version byte names.
pub open spec fn version_of(byte: u8) -> Version {
    if byte == 3 {
        Version::V3
    } else if byte == 4 {
        Version::V4
    } else {
        Version::Default
    }
}

/// Whether the first three bytes spell `ID3`.
pub open spec fn has_header_marker(header: Seq<u8>) -> bool {
    header[0] == 0x49 && header[1] == 0x44 && header[2] == 0x33
}

/// Whether the first three bytes spell `3DI`.
pub open spec fn has_footer_marker(header: Seq<u8>) -> bool {
    header[0] == 0x33 && header[1] == 0x44 && header[2] == 0x49
}

/// Whether ten bytes start an ID3v2.3 or ID3v2.4 tag.
pub open spec fn is_tag_header(header: Seq<u8>) -> bool {
    has_header_marker(header) && (header[3] == 3 || header[3] == 4)
}

/// Whether ten bytes close an ID3v2.3 or ID3v2.4 tag: they carry either
/// marker and a known version.
pub open spec fn is_tag_footer(footer: Seq<u8>) -> bool {
    (has_header_marker(footer) || has_footer_marker(footer)) && (footer[3] == 3 || footer[3] == 4)
}

/// The fields of a ten-byte tag header or footer. The size is read by the
/// rule of the version that the header itself declares.
pub open spec fn header_view(header: Seq<u8>) -> HeaderView {
    HeaderView {
        identifier: latin1_text(header.subrange(0, 3)),
        major_version: version_of(header[3]),
        revision: header[4],
        flags: Flag::spec_new(header[5]),
        size: size_of(header.subrange(6, 10), version_of(header[3])) as u32,
    }
}

/// The fields of the ten bytes of an extended header in a tag of version `v`.
pub open spec fn extended_view(header: Seq<u8>, v: Version) -> ExtendedView {
    ExtendedView {
        ver: v,
        len: size_of(header.subrange(0, 4), v) as u32,
        data: header.subrange(0, 4),
        payload: Seq::empty(),
    }
}

/// What the ten bytes of a tag header hold; fewer bytes hold no header.
pub open spec fn protocol_header_of(header: Seq<u8>) -> Result<HeaderView, ID3Error> {
    if header.len() < 10 {
        Err(ID3Error::UnknownError(HeaderError::Truncated))
    } else if !is_tag_header(header) {
        Err(ID3Error::UnknownError(HeaderError::WrongHeader))
    } else {
        Ok(header_view(header))
    }
}

/// What the ten bytes of a tag footer hold; fewer bytes hold no footer.
pub open spec fn footer_of(footer: Seq<u8>) -> Result<HeaderView, ID3Error> {
    if footer.len() < 10 {
        Err(ID3Error::UnknownError(HeaderError::Truncated))
    } else if !is_tag_footer(footer) {
        Err(ID3Error::UnknownError(HeaderError::WrongHeader))
    } else {
        Ok(header_view(footer))
    }
}

/// What the ten bytes of a frame header lead to in a tag of version `v`: the
/// family and the size of a frame to decode, the padding, or a frame to skip.
pub open spec fn frame_header_outcome(header: Seq<u8>, v: Version) -> Result<
    (IDFactory, u32),
    ID3Error,
> {
    if header.len() < 10 {
        Err(ID3Error::UnknownError(HeaderError::Truncated))
    } else {
        let size = size_of(header.subrange(4, 8), v) as u32;
        match IDFactory::spec_from(header) {
            IDFactory::R(RarelyUsedFrameIdentifier::UNIMPLEMENT(code)) => Err(
                ID3Error::Unimplement(code, size),
            ),
            IDFactory::PADDING => Err(ID3Error::IsPadding),
            id => Ok((id, size)),
        }
    }
}

/// The encoding that the first byte of a payload selects.
pub open spec fn selected(payload: Seq<u8>) -> Result<Encoding, ID3Error> {
    if payload.len() < 1 {
        Err(ID3Error::UnknownError(HeaderError::Truncated))
    } else {
        match encoding_of(payload[0]) {
            Some(encoding) => Ok(encoding),
            None => Err(ID3Error::UnknownError(HeaderError::UnknownEncoding)),
        }
    }
}

/// The encoding of the text at `at` and the place where that text starts:
/// UTF-16 with BOM takes two bytes, which settle the byte order; any other
/// encoding takes none.
pub open spec fn settled(payload: Seq<u8>, encoding: Encoding, at: int) -> Result<
    (Encoding, int),
    ID3Error,
> {
    if encoding == Encoding::UTF16_WITH_BOM {
        if at + 2 > payload.len() {
            Err(ID3Error::UnknownError(HeaderError::Truncated))
        } else {
            Ok((refined(payload.subrange(at, at + 2)), at + 2))
        }
    } else {
        Ok((encoding, at))
    }
}

/// The terminated text field that starts at `at`, and the place behind it.
pub open spec fn field_at(payload: Seq<u8>, at: int, encoding: Encoding) -> Result<
    (Seq<char>, int),
    ID3Error,
> {
    match terminated_text(payload.skip(at), encoding) {
        Ok((text, taken)) => Ok((text, at + taken)),
        Err(e) => Err(ID3Error::UnknownError(e)),
    }
}

/// The text that runs from `at` to the end of the payload.
pub open spec fn rest_at(payload: Seq<u8>, at: int, encoding: Encoding) -> Result<
    Seq<char>,
    ID3Error,
> {
    match decoded_text(encoding, payload.skip(at)) {
        Some(text) => Ok(text),
        None => Err(ID3Error::UnknownError(HeaderError::MalformedText)),
    }
}

/// A payload of one text: the encoding byte, the byte order mark where the
/// encoding asks for one, and the text up to the end.
pub open spec fn single_text(payload: Seq<u8>) -> Result<Seq<char>, ID3Error> {
    match selected(payload) {
        Err(e) => Err(e),
        Ok(selector) => match settled(payload, selector, 1) {
            Err(e) => Err(e),
            Ok((encoding, at)) => rest_at(payload, at, encoding),
        },
    }
}

/// A text information frame decoded from `payload`.
pub open spec fn text_frame(identifier: Seq<char>, payload: Seq<u8>) -> Result<
    TextView,
    ID3Error,
> {
    match single_text(payload) {
        Err(e) => Err(e),
        Ok(data) => Ok(TextView { identifier, data }),
    }
}

/// A URL link frame decoded from `payload`.
pub open spec fn url_frame(identifier: Seq<char>, payload: Seq<u8>) -> Result<UrlView, ID3Error> {
    match single_text(payload) {
        Err(e) => Err(e),
        Ok(data) => Ok(UrlView { identifier, data }),
    }
}

/// A payload of a description and a value: the encoding byte, the byte order
/// mark where the encoding asks for one, the terminated description, and the
/// value up to the end, which is UTF-8.
pub open spec fn described_text(payload: Seq<u8>) -> Result<
    (Encoding, Seq<char>, Seq<char>),
    ID3Error,
> {
    match selected(payload) {
        Err(e) => Err(e),
        Ok(selector) => match settled(payload, selector, 1) {
            Err(e) => Err(e),
            Ok((encoding, at)) => match field_at(payload, at, encoding) {
                Err(e) => Err(e),
                Ok((description, next)) => match rest_at(payload, next, Encoding::UTF8) {
                    Err(e) => Err(e),
                    Ok(data) => Ok((encoding, description, data)),
                },
            },
        },
    }
}

/// A user-defined text frame decoded from `payload`.
pub open spec fn txxx_frame(payload: Seq<u8>) -> Result<TxxxView, ID3Error> {
    match described_text(payload) {
        Err(e) => Err(e),
        Ok((encoding, description, data)) => Ok(TxxxView { encoding, description, data }),
    }
}

/// A user-defined URL frame decoded from `payload`.
pub open spec fn wxxx_frame(payload: Seq<u8>) -> Result<WxxxView, ID3Error> {
    match described_text(payload) {
        Err(e) => Err(e),
        Ok((encoding, description, data)) => Ok(WxxxView { encoding, description, data }),
    }
}

/// A payload of a language, a description and a content: the encoding byte,
/// three bytes of language, the terminated description and the content up to
/// the end. Under UTF-16 with BOM each of the two texts starts with its own
/// byte order mark. The result gives the encoding of the content.
pub open spec fn language_text(payload: Seq<u8>) -> Result<
    (Encoding, Seq<char>, Seq<char>, Seq<char>),
    ID3Error,
> {
    match selected(payload) {
        Err(e) => Err(e),
        Ok(selector) => if payload.len() < 4 {
            Err(ID3Error::UnknownError(HeaderError::Truncated))
        } else {
            match settled(payload, selector, 4) {
                Err(e) => Err(e),
                Ok((first, at)) => match field_at(payload, at, first) {
                    Err(e) => Err(e),
                    Ok((description, next)) => match settled(payload, selector, next) {
                        Err(e) => Err(e),
                        Ok((second, start)) => match rest_at(payload, start, second) {
                            Err(e) => Err(e),
                            Ok(data) => Ok(
                                (second, latin1_text(payload.subrange(1, 4)), description, data),
                            ),
                        },
                    },
                },
            }
        },
    }
}

/// A comment frame decoded from `payload`.
pub open spec fn comm_frame(payload: Seq<u8>) -> Result<CommView, ID3Error> {
    match language_text(payload) {
        Err(e) => Err(e),
        Ok((encoding, language, description, data)) => Ok(
            CommView { identifier: code_text(CODE_COMM), encoding, language, description, data },
        ),
    }
}

/// An unsynchronised lyrics frame decoded from `payload`.
pub open spec fn uslt_frame(payload: Seq<u8>) -> Result<UsltView, ID3Error> {
    match language_text(payload) {
        Err(e) => Err(e),
        Ok((encoding, language, descriptor, data)) => Ok(
            UsltView { identifier: code_text(CODE_USLT), encoding, language, descriptor, data },
        ),
    }
}

/// A synchronised lyrics frame decoded from `payload`: the encoding byte,
/// three bytes of language, the time stamp format, the content type, the
/// terminated description, and the event stream as it stands.
pub open spec fn sylt_frame(payload: Seq<u8>) -> Result<SyltView, ID3Error> {
    match selected(payload) {
        Err(e) => Err(e),
        Ok(encoding) => if payload.len() < 6 {
            Err(ID3Error::UnknownError(HeaderError::Truncated))
        } else {
            match field_at(payload, 6, encoding) {
                Err(e) => Err(e),
                Ok((description, next)) => Ok(
                    SyltView {
                        identifier: code_text(CODE_SYLT),
                        encoding,
                        language: latin1_text(payload.subrange(1, 4)),
                        timestamp_format: payload[4],
                        ctype: payload[5],
                        description,
                        data: payload.skip(next),
                    },
                ),
            }
        },
    }
}

/// An attached picture decoded from `payload`: the encoding byte, the
/// terminated MIME type, which is UTF-8 whatever the encoding byte says, the
/// picture type, the byte order mark where the encoding asks for one, the
/// terminated description, and the image. The byte of the picture type
/// follows the image in `data`.
pub open spec fn apic_frame(payload: Seq<u8>) -> Result<ApicView, ID3Error> {
    match selected(payload) {
        Err(e) => Err(e),
        Ok(selector) => match field_at(payload, 1, Encoding::UTF8) {
            Err(e) => Err(e),
            Ok((mime, at)) => if at >= payload.len() {
                Err(ID3Error::UnknownError(HeaderError::Truncated))
            } else {
                match settled(payload, selector, at + 1) {
                    Err(e) => Err(e),
                    Ok((encoding, start)) => match field_at(payload, start, encoding) {
                        Err(e) => Err(e),
                        Ok((description, next)) => Ok(
                            ApicView {
                                identifier: code_text(CODE_APIC),
                                encoding,
                                MIME_type: mime,
                                picture_type: PicType::spec_from(payload[at] as int),
                                description,
                                data: payload.skip(next).push(payload[at]),
                            },
                        ),
                    },
                }
            },
        },
    }
}

/// The frame that a payload decodes to under the identifier `id`.
pub open spec fn frame_of(id: IDFactory, payload: Seq<u8>) -> Result<TagView, ID3Error> {
    match id {
        IDFactory::T(TextInformationFrameIdentifier::TXXX) => match txxx_frame(payload) {
            Ok(f) => Ok(TagView::UserText(f)),
            Err(e) => Err(e),
        },
        IDFactory::T(_) => match text_frame(id.spec_text(), payload) {
            Ok(f) => Ok(TagView::TextInformation(f)),
            Err(e) => Err(e),
        },
        IDFactory::W(URLLinkFrameIdentifier::WXXX) => match wxxx_frame(payload) {
            Ok(f) => Ok(TagView::UserURL(f)),
            Err(e) => Err(e),
        },
        IDFactory::W(_) => match url_frame(id.spec_text(), payload) {
            Ok(f) => Ok(TagView::URLLink(f)),
            Err(e) => Err(e),
        },
        IDFactory::APIC => match apic_frame(payload) {
            Ok(f) => Ok(TagView::AttachedPicture(f)),
            Err(e) => Err(e),
        },
        IDFactory::COMM => match comm_frame(payload) {
            Ok(f) => Ok(TagView::Comment(f)),
            Err(e) => Err(e),
        },
        IDFactory::USLT => match uslt_frame(payload) {
            Ok(f) => Ok(TagView::UnsyncedLyrics(f)),
            Err(e) => Err(e),
        },
        IDFactory::SYLT => match sylt_frame(payload) {
            Ok(f) => Ok(TagView::SyncedLyrics(f)),
            Err(e) => Err(e),
        },
        IDFactory::R(_) => Ok(
            TagView::RarelyUsedRaw(RarelyUsedView { identifier: id.spec_text(), payload }),
        ),
        IDFactory::PADDING => Err(ID3Error::IsPadding),
    }
}

/// Reads the fields of a ten-byte header or footer.
fn read_header_fields(header: &[u8]) -> (fields: ProtocolHeader)
    requires
        header@.len() >= 10,
        header@[3] == 3 || header@[3] == 4,
    ensures
        fields@ == header_view(header@),
{
    let major_version = if header[3] == 3 {
        Version::V3
    } else {
        Version::V4
    };
    ProtocolHeader {
        identifier: bytes_to_text(slice_subrange(header, 0, 3)),
        major_version,
        revision: header[4],
        flags: Flag::new(header[5]),
        size: get_size(slice_subrange(header, 6, 10), &major_version),
    }
}

/// Decodes the ten bytes at the start of a file. Anything but the marker
/// `ID3` with version 3 or 4 is no tag header.
pub fn parse_protocol_header(header: &[u8]) -> (r: Result<ProtocolHeader, ID3Error>)
    ensures
        match protocol_header_of(header@) {
            Ok(v) => r matches Ok(h) && h@ == v,
            Err(e) => r matches Err(x) && x == e,
        },
{
    if header.len() < 10 {
        return Err(ID3Error::UnknownError(HeaderError::Truncated));
    }
    if header[0] == 0x49 && header[1] == 0x44 && header[2] == 0x33 && (header[3] == 3 || header[3]
        == 4) {
        Ok(read_header_fields(header))
    } else {
        Err(ID3Error::UnknownError(HeaderError::WrongHeader))
    }
}

/// Decodes the ten bytes of a footer, which carry the marker `3DI` or `ID3`
/// and version 3 or 4.
pub fn parse_footer_buffer(footer: &[u8]) -> (r: Result<Footer, ID3Error>)
    ensures
        match footer_of(footer@) {
            Ok(v) => r matches Ok(f) && f@ == v,
            Err(e) => r matches Err(x) && x == e,
        },
{
    if footer.len() < 10 {
        return Err(ID3Error::UnknownError(HeaderError::Truncated));
    }
    let forward = footer[0] == 0x49 && footer[1] == 0x44 && footer[2] == 0x33;
    let backward = footer[0] == 0x33 && footer[1] == 0x44 && footer[2] == 0x49;
    if (forward || backward) && (footer[3] == 3 || footer[3] == 4) {
        Ok(Footer::from(read_header_fields(footer)))
    } else {
        Err(ID3Error::UnknownError(HeaderError::WrongHeader))
    }
}

/// Decodes the ten bytes of an extended header. Its payload is read later.
pub fn parse_extended_header(header: &[u8], version: &Version) -> (r: ExtendedHeader)
    requires
        header@.len() >= 10,
    ensures
        r@ == extended_view(header@, *version),
{
    ExtendedHeader::new(
        *version,
        get_size(slice_subrange(header, 0, 4), version),
        copy_range(header, 0, 4),
    )
}

/// Decodes the ten bytes of a frame header: the identifier, the size and the
/// two flag bytes. The padding and a frame outside the catalog are reported
/// as errors, the second with what it takes to skip the frame.
pub fn parse_frame_header(header: &[u8], version: &Version) -> (r: Result<FrameHeader, ID3Error>)
    ensures
        match frame_header_outcome(header@, *version) {
            Ok((id, size)) => {
                &&& r matches Ok(h)
                &&& h.identifier == id
                &&& h.size == size
                &&& h.version == *version
                &&& h.flags@.len() == 2
                &&& h.flags@[0]@ == bits_of(header@[8])
                &&& h.flags@[1]@ == bits_of(header@[9])
            },
            Err(e) => r matches Err(x) && x == e,
        },
{
    if header.len() < 10 {
        return Err(ID3Error::UnknownError(HeaderError::Truncated));
    }
    let identifier = IDFactory::from(header);
    let size = get_size(slice_subrange(header, 4, 8), version);
    match identifier {
        IDFactory::R(RarelyUsedFrameIdentifier::UNIMPLEMENT(code)) => Err(
            ID3Error::Unimplement(code, size),
        ),
        IDFactory::PADDING => Err(ID3Error::IsPadding),
        _ => {
            let flags = map_to_binary(slice_subrange(header, 8, 10));
            Ok(FrameHeader { identifier, size, flags, version: *version })
        },
    }
}

/// Reads the encoding byte of a payload.
pub fn select_encoding(payload: &[u8]) -> (r: Result<Encoding, ID3Error>)
    ensures
        r == selected(payload@),
{
    if payload.len() < 1 {
        return Err(ID3Error::UnknownError(HeaderError::Truncated));
    }
    match get_encoding(payload[0]) {
        Ok(encoding) => Ok(encoding),
        Err(e) => Err(ID3Error::UnknownError(e)),
    }
}

/// Settles the encoding of the text at `at`: under UTF-16 with BOM the two
/// bytes there give the byte order and the text starts behind them.
pub fn settle_encoding(payload: &[u8], encoding: Encoding, at: usize) -> (r: Result<
    (Encoding, usize),
    ID3Error,
>)
    requires
        at <= payload@.len(),
    ensures
        match settled(payload@, encoding, at as int) {
            Ok((e, next)) => r matches Ok((x, n)) && x == e && n == next && n <= payload@.len(),
            Err(e) => r matches Err(x) && x == e,
        },
{
    if let Encoding::UTF16_WITH_BOM = encoding {
        if payload.len() - at < 2 {
            Err(ID3Error::UnknownError(HeaderError::Truncated))
        } else {
            Ok((refine_encoding(slice_subrange(payload, at, at + 2)), at + 2))
        }
    } else {
        Ok((encoding, at))
    }
}

/// Reads the terminated text field at `at`; gives the text and the place
/// behind the field.
pub fn read_field(payload: &[u8], at: usize, encoding: &Encoding) -> (r: Result<
    (String, usize),
    ID3Error,
>)
    requires
        at <= payload@.len(),
    ensures
        match field_at(payload@, at as int, *encoding) {
            Ok((text, next)) => r matches Ok((s, n)) && s@ == text && n == next && n
                <= payload@.len(),
            Err(e) => r matches Err(x) && x == e,
        },
{
    match get_text_according_to_encoding(slice_subrange(payload, at, payload.len()), encoding) {
        Ok((text, taken)) => Ok((text, at + taken)),
        Err(e) => Err(ID3Error::UnknownError(e)),
    }
}

/// Decodes the text that runs from `at` to the end of the payload.
pub fn read_rest(payload: &[u8], at: usize, encoding: &Encoding) -> (r: Result<String, ID3Error>)
    requires
        at <= payload@.len(),
    ensures
        match rest_at(payload@, at as int, *encoding) {
            Ok(text) => r matches Ok(s) && s@ == text,
            Err(e) => r matches Err(x) && x == e,
        },
{
    match get_text(encoding, slice_subrange(payload, at, payload.len())) {
        Ok(text) => Ok(text),
        Err(e) => Err(ID3Error::UnknownError(e)),
    }
}

/// Decodes a payload of one text.
fn parse_single_text(payload: &[u8]) -> (r: Result<String, ID3Error>)
    ensures
        match single_text(payload@) {
            Ok(text) => r matches Ok(s) && s@ == text,
            Err(e) => r matches Err(x) && x == e,
        },
{
    let selector = match select_encoding(payload) {
        Ok(v) => v,
        Err(e) => {
            return Err(e);
        },
    };
    let (encoding, cursor) = match settle_encoding(payload, selector, 1) {
        Ok(v) => v,
        Err(e) => {
            return Err(e);
        },
    };
    read_rest(payload, cursor, &encoding)
}

/// Decodes a payload of a description and a value.
fn parse_described_text(payload: &[u8]) -> (r: Result<(Encoding, String, String), ID3Error>)
    ensures
        match described_text(payload@) {
            Ok((encoding, description, data)) => r matches Ok((e, d, t)) && e == encoding && d@
                == description && t@ == data,
            Err(e) => r matches Err(x) && x == e,
        },
{
    let selector = match select_encoding(payload) {
        Ok(v) => v,
        Err(e) => {
            return Err(e);
        },
    };
    let (encoding, cursor) = match settle_encoding(payload, selector, 1) {
        Ok(v) => v,
        Err(e) => {
            return Err(e);
        },
    };
    let (description, next) = match read_field(payload, cursor, &encoding) {
        Ok(v) => v,
        Err(e) => {
            return Err(e);
        },
    };
    match read_rest(payload, next, &Encoding::UTF8) {
        Ok(data) => Ok((encoding, description, data)),
        Err(e) => Err(e),
    }
}

/// Decodes a payload of a language, a description and a content.
fn parse_language_text(payload: &[u8]) -> (r: Result<(Encoding, String, String, String), ID3Error>)
    ensures
        match language_text(payload@) {
            Ok((encoding, language, description, data)) => r matches Ok((e, l, d, t)) && e
                == encoding && l@ == language && d@ == description && t@ == data,
            Err(e) => r matches Err(x) && x == e,
        },
{
    let selector = match select_encoding(payload) {
        Ok(v) => v,
        Err(e) => {
            return Err(e);
        },
    };
    if payload.len() < 4 {
        return Err(ID3Error::UnknownError(HeaderError::Truncated));
    }
    let language = bytes_to_text(slice_subrange(payload, 1, 4));
    let (first, cursor) = match settle_encoding(payload, selector, 4) {
        Ok(v) => v,
        Err(e) => {
            return Err(e);
        },
    };
    let (description, next) = match read_field(payload, cursor, &first) {
        Ok(v) => v,
        Err(e) => {
            return Err(e);
        },
    };
    let (second, start) = match settle_encoding(payload, selector, next) {
        Ok(v) => v,
        Err(e) => {
            return Err(e);
        },
    };
    match read_rest(payload, start, &second) {
        Ok(data) => Ok((second, language, description, data)),
        Err(e) => Err(e),
    }
}

/// Decodes the payload of a text information frame other than `TXXX`.
pub fn parse_text_infomation_frame(identifier: String, payload: &[u8]) -> (r: Result<
    TextInfomationFrame,
    ID3Error,
>)
    ensures
        match text_frame(identifier@, payload@) {
            Ok(v) => r matches Ok(f) && f@ == v,
            Err(e) => r matches Err(x) && x == e,
        },
{
    match parse_single_text(payload) {
        Ok(data) => Ok(TextInfomationFrame::new(identifier, data)),
        Err(e) => Err(e),
    }
}

/// Decodes the payload of a URL link frame other than `WXXX`.
pub fn parse_url_link_frame(identifier: String, payload: &[u8]) -> (r: Result<
    URLLinkFrame,
    ID3Error,
>)
    ensures
        match url_frame(identifier@, payload@) {
            Ok(v) => r matches Ok(f) && f@ == v,
            Err(e) => r matches Err(x) && x == e,
        },
{
    match parse_single_text(payload) {
        Ok(data) => Ok(URLLinkFrame::new(identifier, data)),
        Err(e) => Err(e),
    }
}

/// Decodes the payload of a `TXXX` frame.
#[allow(non_snake_case)]
pub fn parse_TXXX(payload: &[u8]) -> (r: Result<TXXX, ID3Error>)
    ensures
        match txxx_frame(payload@) {
            Ok(v) => r matches Ok(f) && f@ == v,
            Err(e) => r matches Err(x) && x == e,
        },
{
    match parse_described_text(payload) {
        Ok((encoding, description, data)) => Ok(TXXX::new(encoding, description, data)),
        Err(e) => Err(e),
    }
}

/// Decodes the payload of a `WXXX` frame.
#[allow(non_snake_case)]
pub fn parse_WXXX(payload: &[u8]) -> (r: Result<WXXX, ID3Error>)
    ensures
        match wxxx_frame(payload@) {
            Ok(v) => r matches Ok(f) && f@ == v,
            Err(e) => r matches Err(x) && x == e,
        },
{
    match parse_described_text(payload) {
        Ok((encoding, description, data)) => Ok(WXXX::new(encoding, description, data)),
        Err(e) => Err(e),
    }
}

/// Decodes the payload of a `USLT` frame.
#[allow(non_snake_case)]
pub fn parse_USLT(payload: &[u8]) -> (r: Result<USLT, ID3Error>)
    ensures
        match uslt_frame(payload@) {
            Ok(v) => r matches Ok(f) && f@ == v,
            Err(e) => r matches Err(x) && x == e,
        },
{
    match parse_language_text(payload) {
        Ok((encoding, language, description, data)) => Ok(
            USLT::new(encoding, language, description, data),
        ),
        Err(e) => Err(e),
    }
}

/// Decodes the payload of a `COMM` frame.
#[allow(non_snake_case)]
pub fn parse_COMM(payload: &[u8]) -> (r: Result<COMM, ID3Error>)
    ensures
        match comm_frame(payload@) {
            Ok(v) => r matches Ok(f) && f@ == v,
            Err(e) => r matches Err(x) && x == e,
        },
{
    match parse_language_text(payload) {
        Ok((encoding, language, description, data)) => Ok(
            COMM::new(encoding, language, description, data),
        ),
        Err(e) => Err(e),
    }
}

/// Decodes the payload of a `SYLT` frame.
#[allow(non_snake_case)]
pub fn parse_SYLT(payload: &[u8]) -> (r: Result<SYLT, ID3Error>)
    ensures
        match sylt_frame(payload@) {
            Ok(v) => r matches Ok(f) && f@ == v,
            Err(e) => r matches Err(x) && x == e,
        },
{
    let frame_encoding = match select_encoding(payload) {
        Ok(v) => v,
        Err(e) => {
            return Err(e);
        },
    };
    if payload.len() < 6 {
        return Err(ID3Error::UnknownError(HeaderError::Truncated));
    }
    let language = bytes_to_text(slice_subrange(payload, 1, 4));
    let timestamp_format: u8 = payload[4];
    let ctype: u8 = payload[5];
    let (description, next) = match read_field(payload, 6, &frame_encoding) {
        Ok(v) => v,
        Err(e) => {
            return Err(e);
        },
    };
    let data = copy_range(payload, next, payload.len());
    Ok(SYLT::new(frame_encoding, language, timestamp_format, ctype, description, data))
}

/// Decodes the payload of an `APIC` frame.
#[allow(non_snake_case)]
pub fn parse_APIC(payload: &[u8]) -> (r: Result<APIC, ID3Error>)
    ensures
        match apic_frame(payload@) {
            Ok(v) => r matches Ok(f) && f@ == v,
            Err(e) => r matches Err(x) && x == e,
        },
{
    let selector = match select_encoding(payload) {
        Ok(v) => v,
        Err(e) => {
            return Err(e);
        },
    };
    let (MIME_type, cursor) = match read_field(payload, 1, &Encoding::UTF8) {
        Ok(v) => v,
        Err(e) => {
            return Err(e);
        },
    };
    if cursor >= payload.len() {
        return Err(ID3Error::UnknownError(HeaderError::Truncated));
    }
    let raw_pic_type: u8 = payload[cursor];
    let picture_type = PicType::from(raw_pic_type);
    let (encoding, start) = match settle_encoding(payload, selector, cursor + 1) {
        Ok(v) => v,
        Err(e) => {
            return Err(e);
        },
    };
    let (description, next) = match read_field(payload, start, &encoding) {
        Ok(v) => v,
        Err(e) => {
            return Err(e);
        },
    };
    let mut data = copy_range(payload, next, payload.len());
    data.push(raw_pic_type);
    Ok(APIC::new(encoding, MIME_type, picture_type, description, data))
}

/// Keeps the payload of a rarely used frame as it is.
#[allow(non_snake_case)]
pub fn parse_RarelyUsed(identifier: String, payload: &[u8]) -> (r: Result<RarelyUsed, ID3Error>)
    ensures
        r matches Ok(f) && f@ == (RarelyUsedView { identifier: identifier@, payload: payload@ }),
{
    let kept = copy_range(payload, 0, payload.len());
    assert(kept@ =~= payload@);
    Ok(RarelyUsed::new(identifier, kept))
}

/// Decodes the payload of a frame by the family of its header.
pub fn parse_frame_payload(payload: &Buffer, header: &FrameHeader) -> (r: Result<
    TagValue,
    ID3Error,
>)
    ensures
        match frame_of(header.identifier, payload@) {
            Ok(v) => r matches Ok(f) && f@ == v,
            Err(e) => r matches Err(x) && x == e,
        },
{
    let payload = payload.as_slice();
    match &header.identifier {
        IDFactory::T(id) => {
            if let TextInformationFrameIdentifier::TXXX = id {
                match parse_TXXX(payload) {
                    Ok(f) => Ok(TagValue::UserText(f)),
                    Err(e) => Err(e),
                }
            } else {
                match parse_text_infomation_frame(header.identifier.to_string(), payload) {
                    Ok(f) => Ok(TagValue::TextInformation(f)),
                    Err(e) => Err(e),
                }
            }
        },
        IDFactory::W(id) => {
            if let URLLinkFrameIdentifier::WXXX = id {
                match parse_WXXX(payload) {
                    Ok(f) => Ok(TagValue::UserURL(f)),
                    Err(e) => Err(e),
                }
            } else {
                match parse_url_link_frame(header.identifier.to_string(), payload) {
                    Ok(f) => Ok(TagValue::URLLink(f)),
                    Err(e) => Err(e),
                }
            }
        },
        IDFactory::APIC => match parse_APIC(payload) {
            Ok(f) => Ok(TagValue::AttachedPicture(f)),
            Err(e) => Err(e),
        },
        IDFactory::COMM => match parse_COMM(payload) {
            Ok(f) => Ok(TagValue::Comment(f)),
            Err(e) => Err(e),
        },
        IDFactory::USLT => match parse_USLT(payload) {
            Ok(f) => Ok(TagValue::UnsyncedLyrics(f)),
            Err(e) => Err(e),
        },
        IDFactory::SYLT => match parse_SYLT(payload) {
            Ok(f) => Ok(TagValue::SyncedLyrics(f)),
            Err(e) => Err(e),
        },
        IDFactory::R(_) => match parse_RarelyUsed(header.identifier.to_string(), payload) {
            Ok(f) => Ok(TagValue::RarelyUsedRaw(f)),
            Err(e) => Err(e),
        },
        IDFactory::PADDING => Err(ID3Error::IsPadding),
    }
}

} // verus!
