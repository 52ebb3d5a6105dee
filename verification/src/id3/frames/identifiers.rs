//! The catalog of ID3v2.3 and ID3v2.4 frame identifiers.
use vstd::prelude::*;

use crate::util::{be32, bytes_to_text, latin1_text, parse_4_bytes_with_big_endian};

verus! {

/// The four bytes of a code, the highest first.
pub open spec fn code_bytes(code: u32) -> Seq<u8> {
    seq![
        (code / 0x1000000) as u8,
        ((code / 0x10000) % 0x100) as u8,
        ((code / 0x100) % 0x100) as u8,
        (code % 0x100) as u8,
    ]
}

/// The four characters that a code spells, one for each of its bytes.
pub open spec fn code_text(code: u32) -> Seq<char> {
    latin1_text(code_bytes(code))
}

/// The code of the identifier `APIC`.
pub const CODE_APIC: u32 = 0x41504943;

/// The code of the identifier `COMM`.
pub const CODE_COMM: u32 = 0x434F4D4D;

/// The code of the identifier `SYLT`.
pub const CODE_SYLT: u32 = 0x53594C54;

/// The code of the identifier `USLT`.
pub const CODE_USLT: u32 = 0x55534C54;

/// The code of the identifier `TXXX`.
pub const CODE_TXXX: u32 = 0x54585858;

/// The code of the identifier `WXXX`.
pub const CODE_WXXX: u32 = 0x57585858;

/// The four characters that `code` spells.
pub fn code_to_text(code: u32) -> (text: String)
    ensures
        text@ == code_text(code),
{
    let mut bytes: Vec<u8> = Vec::new();
    bytes.push((code / 0x1000000) as u8);
    bytes.push(((code / 0x10000) % 0x100) as u8);
    bytes.push(((code / 0x100) % 0x100) as u8);
    bytes.push((code % 0x100) as u8);
    assert(bytes@ =~= code_bytes(code));
    bytes_to_text(bytes.as_slice())
}

/// The bytes of a code are the bytes that it was read from.
pub proof fn lemma_code_bytes_of_be32(bytes: Seq<u8>)
    requires
        bytes.len() == 4,
    ensures
        code_bytes(be32(bytes) as u32) == bytes,
{
    let c = be32(bytes);
    assert(0 <= c <= 0xFFFF_FFFF);
    assert(c / 0x1000000 == bytes[0]);
    assert((c / 0x10000) % 0x100 == bytes[1]);
    assert((c / 0x100) % 0x100 == bytes[2]);
    assert(c % 0x100 == bytes[3]);
    assert(code_bytes(c as u32) =~= bytes);
}

/// The family of a frame identifier, by which its payload is decoded.
#[derive(Clone, Copy, Debug, PartialEq, Eq, Structural)]
pub enum IDFactory {
    /// Text information: the code starts with `T`.
    T(TextInformationFrameIdentifier),
    /// URL link: the code starts with `W`.
    W(URLLinkFrameIdentifier),
    /// Any other code; the payload is kept as it is.
    R(RarelyUsedFrameIdentifier),
    /// Attached picture.
    APIC,
    /// Comment.
    COMM,
    /// Synchronised lyrics.
    SYLT,
    /// Unsynchronised lyrics.
    USLT,
    /// The all-zero code that starts the padding.
    PADDING,
}

impl IDFactory {
    /// The family of the four-byte code `code`. The rules apply in this
    /// order: zero is padding, a first byte `T` is text information, a first
    /// byte `W` a URL link, then the four codes with a decoder of their own;
    /// anything else is rarely used.
    pub open spec fn spec_from_code(code: u32) -> IDFactory {
        if code == 0 {
            IDFactory::PADDING
        } else if code / 0x1000000 == 0x54 {
            IDFactory::T(TextInformationFrameIdentifier::spec_from(code))
        } else if code / 0x1000000 == 0x57 {
            IDFactory::W(URLLinkFrameIdentifier::spec_from(code))
        } else if code == CODE_APIC {
            IDFactory::APIC
        } else if code == CODE_USLT {
            IDFactory::USLT
        } else if code == CODE_SYLT {
            IDFactory::SYLT
        } else if code == CODE_COMM {
            IDFactory::COMM
        } else {
            IDFactory::R(RarelyUsedFrameIdentifier::spec_from(code))
        }
    }

    /// The family of the identifier that the first four bytes of `value`
    /// spell.
    pub open spec fn spec_from(value: Seq<u8>) -> IDFactory {
        IDFactory::spec_from_code(be32(value) as u32)
    }

    /// The four-byte code of the identifier; zero for the padding.
    pub open spec fn spec_code(self) -> u32 {
        match self {
            IDFactory::T(id) => id.spec_code(),
            IDFactory::W(id) => id.spec_code(),
            IDFactory::R(id) => id.spec_code(),
            IDFactory::APIC => CODE_APIC,
            IDFactory::COMM => CODE_COMM,
            IDFactory::SYLT => CODE_SYLT,
            IDFactory::USLT => CODE_USLT,
            IDFactory::PADDING => 0,
        }
    }

    /// The identifier as text: the four characters of its code, and the word
    /// `PADDING` for the padding.
    pub open spec fn spec_text(self) -> Seq<char> {
        match self {
            IDFactory::PADDING => "PADDING"@,
            _ => code_text(self.spec_code()),
        }
    }

    /// Classifies the identifier that the first four bytes of `value` spell.
    pub fn from(value: &[u8]) -> (id: IDFactory)
        requires
            value@.len() >= 4,
        ensures
            id == IDFactory::spec_from(value@),
            id.spec_code() == be32(value@),
    {
        let code = parse_4_bytes_with_big_endian(value);
        if code == 0 {
            IDFactory::PADDING
        } else if code / 0x1000000 == 0x54 {
            IDFactory::T(TextInformationFrameIdentifier::from(code))
        } else if code / 0x1000000 == 0x57 {
            IDFactory::W(URLLinkFrameIdentifier::from(code))
        } else if code == CODE_APIC {
            IDFactory::APIC
        } else if code == CODE_USLT {
            IDFactory::USLT
        } else if code == CODE_SYLT {
            IDFactory::SYLT
        } else if code == CODE_COMM {
            IDFactory::COMM
        } else {
            IDFactory::R(RarelyUsedFrameIdentifier::from(code))
        }
    }

    /// The four-byte code of the identifier.
    pub fn code(&self) -> (code: u32)
        ensures
            code == self.spec_code(),
    {
        match self {
            IDFactory::T(id) => id.code(),
            IDFactory::W(id) => id.code(),
            IDFactory::R(id) => id.code(),
            IDFactory::APIC => CODE_APIC,
            IDFactory::COMM => CODE_COMM,
            IDFactory::SYLT => CODE_SYLT,
            IDFactory::USLT => CODE_USLT,
            IDFactory::PADDING => 0,
        }
    }

    /// The identifier as text.
    pub fn to_string(&self) -> (text: String)
        ensures
            text@ == self.spec_text(),
    {
        match self {
            IDFactory::PADDING => "PADDING".to_owned(),
            _ => code_to_text(self.code()),
        }
    }
}

/// Text information frames of ID3v2.3 and ID3v2.4.
#[derive(Clone, Copy, Debug, PartialEq, Eq, Structural)]
pub enum TextInformationFrameIdentifier {
    TIT1,
    TIT2,
    TIT3,
    TALB,
    TOAL,
    TRCK,
    TPOS,
    TSST,
    TSRC,
    TPE1,
    TPE2,
    TPE3,
    TPE4,
    TOPE,
    TEXT,
    TOLY,
    TCOM,
    TMCL,
    TIPL,
    TENC,
    TBPM,
    TLEN,
    TKEY,
    TLAN,
    TCON,
    TFLT,
    TMED,
    TMOO,
    TCOP,
    TPRO,
    TPUB,
    TOWN,
    TRSN,
    TRSO,
    TOFN,
    TDLY,
    TDEN,
    TDOR,
    TDRC,
    TDRL,
    TDTG,
    TSSE,
    TSOA,
    TSOP,
    TSOT,
    TDAT,
    TIME,
    TORY,
    TRDA,
    TSIZ,
    TYER,
    TXXX,
    /// A code that starts with `T` and is not in the catalog.
    UNLISTED(u32),
}

impl TextInformationFrameIdentifier {
    /// The identifier that a four-byte code names.
    pub open spec fn spec_from(code: u32) -> TextInformationFrameIdentifier {
        if code == 0x54495431 {
            TextInformationFrameIdentifier::TIT1
        } else if code == 0x54495432 {
            TextInformationFrameIdentifier::TIT2
        } else if code == 0x54495433 {
            TextInformationFrameIdentifier::TIT3
        } else if code == 0x54414C42 {
            TextInformationFrameIdentifier::TALB
        } else if code == 0x544F414C {
            TextInformationFrameIdentifier::TOAL
        } else if code == 0x5452434B {
            TextInformationFrameIdentifier::TRCK
        } else if code == 0x54504F53 {
            TextInformationFrameIdentifier::TPOS
        } else if code == 0x54535354 {
            TextInformationFrameIdentifier::TSST
        } else if code == 0x54535243 {
            TextInformationFrameIdentifier::TSRC
        } else if code == 0x54504531 {
            TextInformationFrameIdentifier::TPE1
        } else if code == 0x54504532 {
            TextInformationFrameIdentifier::TPE2
        } else if code == 0x54504533 {
            TextInformationFrameIdentifier::TPE3
        } else if code == 0x54504534 {
            TextInformationFrameIdentifier::TPE4
        } else if code == 0x544F5045 {
            TextInformationFrameIdentifier::TOPE
        } else if code == 0x54455854 {
            TextInformationFrameIdentifier::TEXT
        } else if code == 0x544F4C59 {
            TextInformationFrameIdentifier::TOLY
        } else if code == 0x54434F4D {
            TextInformationFrameIdentifier::TCOM
        } else if code == 0x544D434C {
            TextInformationFrameIdentifier::TMCL
        } else if code == 0x5449504C {
            TextInformationFrameIdentifier::TIPL
        } else if code == 0x54454E43 {
            TextInformationFrameIdentifier::TENC
        } else if code == 0x5442504D {
            TextInformationFrameIdentifier::TBPM
        } else if code == 0x544C454E {
            TextInformationFrameIdentifier::TLEN
        } else if code == 0x544B4559 {
            TextInformationFrameIdentifier::TKEY
        } else if code == 0x544C414E {
            TextInformationFrameIdentifier::TLAN
        } else if code == 0x54434F4E {
            TextInformationFrameIdentifier::TCON
        } else if code == 0x54464C54 {
            TextInformationFrameIdentifier::TFLT
        } else if code == 0x544D4544 {
            TextInformationFrameIdentifier::TMED
        } else if code == 0x544D4F4F {
            TextInformationFrameIdentifier::TMOO
        } else if code == 0x54434F50 {
            TextInformationFrameIdentifier::TCOP
        } else if code == 0x5450524F {
            TextInformationFrameIdentifier::TPRO
        } else if code == 0x54505542 {
            TextInformationFrameIdentifier::TPUB
        } else if code == 0x544F574E {
            TextInformationFrameIdentifier::TOWN
        } else if code == 0x5452534E {
            TextInformationFrameIdentifier::TRSN
        } else if code == 0x5452534F {
            TextInformationFrameIdentifier::TRSO
        } else if code == 0x544F464E {
            TextInformationFrameIdentifier::TOFN
        } else if code == 0x54444C59 {
            TextInformationFrameIdentifier::TDLY
        } else if code == 0x5444454E {
            TextInformationFrameIdentifier::TDEN
        } else if code == 0x54444F52 {
            TextInformationFrameIdentifier::TDOR
        } else if code == 0x54445243 {
            TextInformationFrameIdentifier::TDRC
        } else if code == 0x5444524C {
            TextInformationFrameIdentifier::TDRL
        } else if code == 0x54445447 {
            TextInformationFrameIdentifier::TDTG
        } else if code == 0x54535345 {
            TextInformationFrameIdentifier::TSSE
        } else if code == 0x54534F41 {
            TextInformationFrameIdentifier::TSOA
        } else if code == 0x54534F50 {
            TextInformationFrameIdentifier::TSOP
        } else if code == 0x54534F54 {
            TextInformationFrameIdentifier::TSOT
        } else if code == 0x54444154 {
            TextInformationFrameIdentifier::TDAT
        } else if code == 0x54494D45 {
            TextInformationFrameIdentifier::TIME
        } else if code == 0x544F5259 {
            TextInformationFrameIdentifier::TORY
        } else if code == 0x54524441 {
            TextInformationFrameIdentifier::TRDA
        } else if code == 0x5453495A {
            TextInformationFrameIdentifier::TSIZ
        } else if code == 0x54594552 {
            TextInformationFrameIdentifier::TYER
        } else if code == 0x54585858 {
            TextInformationFrameIdentifier::TXXX
        } else {
            TextInformationFrameIdentifier::UNLISTED(code)
        }
    }

    /// The four-byte code of the identifier, its first byte highest.
    pub open spec fn spec_code(self) -> u32 {
        match self {
            TextInformationFrameIdentifier::TIT1 => 0x54495431,
            TextInformationFrameIdentifier::TIT2 => 0x54495432,
            TextInformationFrameIdentifier::TIT3 => 0x54495433,
            TextInformationFrameIdentifier::TALB => 0x54414C42,
            TextInformationFrameIdentifier::TOAL => 0x544F414C,
            TextInformationFrameIdentifier::TRCK => 0x5452434B,
            TextInformationFrameIdentifier::TPOS => 0x54504F53,
            TextInformationFrameIdentifier::TSST => 0x54535354,
            TextInformationFrameIdentifier::TSRC => 0x54535243,
            TextInformationFrameIdentifier::TPE1 => 0x54504531,
            TextInformationFrameIdentifier::TPE2 => 0x54504532,
            TextInformationFrameIdentifier::TPE3 => 0x54504533,
            TextInformationFrameIdentifier::TPE4 => 0x54504534,
            TextInformationFrameIdentifier::TOPE => 0x544F5045,
            TextInformationFrameIdentifier::TEXT => 0x54455854,
            TextInformationFrameIdentifier::TOLY => 0x544F4C59,
            TextInformationFrameIdentifier::TCOM => 0x54434F4D,
            TextInformationFrameIdentifier::TMCL => 0x544D434C,
            TextInformationFrameIdentifier::TIPL => 0x5449504C,
            TextInformationFrameIdentifier::TENC => 0x54454E43,
            TextInformationFrameIdentifier::TBPM => 0x5442504D,
            TextInformationFrameIdentifier::TLEN => 0x544C454E,
            TextInformationFrameIdentifier::TKEY => 0x544B4559,
            TextInformationFrameIdentifier::TLAN => 0x544C414E,
            TextInformationFrameIdentifier::TCON => 0x54434F4E,
            TextInformationFrameIdentifier::TFLT => 0x54464C54,
            TextInformationFrameIdentifier::TMED => 0x544D4544,
            TextInformationFrameIdentifier::TMOO => 0x544D4F4F,
            TextInformationFrameIdentifier::TCOP => 0x54434F50,
            TextInformationFrameIdentifier::TPRO => 0x5450524F,
            TextInformationFrameIdentifier::TPUB => 0x54505542,
            TextInformationFrameIdentifier::TOWN => 0x544F574E,
            TextInformationFrameIdentifier::TRSN => 0x5452534E,
            TextInformationFrameIdentifier::TRSO => 0x5452534F,
            TextInformationFrameIdentifier::TOFN => 0x544F464E,
            TextInformationFrameIdentifier::TDLY => 0x54444C59,
            TextInformationFrameIdentifier::TDEN => 0x5444454E,
            TextInformationFrameIdentifier::TDOR => 0x54444F52,
            TextInformationFrameIdentifier::TDRC => 0x54445243,
            TextInformationFrameIdentifier::TDRL => 0x5444524C,
            TextInformationFrameIdentifier::TDTG => 0x54445447,
            TextInformationFrameIdentifier::TSSE => 0x54535345,
            TextInformationFrameIdentifier::TSOA => 0x54534F41,
            TextInformationFrameIdentifier::TSOP => 0x54534F50,
            TextInformationFrameIdentifier::TSOT => 0x54534F54,
            TextInformationFrameIdentifier::TDAT => 0x54444154,
            TextInformationFrameIdentifier::TIME => 0x54494D45,
            TextInformationFrameIdentifier::TORY => 0x544F5259,
            TextInformationFrameIdentifier::TRDA => 0x54524441,
            TextInformationFrameIdentifier::TSIZ => 0x5453495A,
            TextInformationFrameIdentifier::TYER => 0x54594552,
            TextInformationFrameIdentifier::TXXX => 0x54585858,
            TextInformationFrameIdentifier::UNLISTED(code) => code,
        }
    }

    /// The identifier with the four-byte code `code`.
    pub fn from(code: u32) -> (id: TextInformationFrameIdentifier)
        ensures
            id == TextInformationFrameIdentifier::spec_from(code),
            id.spec_code() == code,
    {
        match code {
            0x54495431 => TextInformationFrameIdentifier::TIT1,
            0x54495432 => TextInformationFrameIdentifier::TIT2,
            0x54495433 => TextInformationFrameIdentifier::TIT3,
            0x54414C42 => TextInformationFrameIdentifier::TALB,
            0x544F414C => TextInformationFrameIdentifier::TOAL,
            0x5452434B => TextInformationFrameIdentifier::TRCK,
            0x54504F53 => TextInformationFrameIdentifier::TPOS,
            0x54535354 => TextInformationFrameIdentifier::TSST,
            0x54535243 => TextInformationFrameIdentifier::TSRC,
            0x54504531 => TextInformationFrameIdentifier::TPE1,
            0x54504532 => TextInformationFrameIdentifier::TPE2,
            0x54504533 => TextInformationFrameIdentifier::TPE3,
            0x54504534 => TextInformationFrameIdentifier::TPE4,
            0x544F5045 => TextInformationFrameIdentifier::TOPE,
            0x54455854 => TextInformationFrameIdentifier::TEXT,
            0x544F4C59 => TextInformationFrameIdentifier::TOLY,
            0x54434F4D => TextInformationFrameIdentifier::TCOM,
            0x544D434C => TextInformationFrameIdentifier::TMCL,
            0x5449504C => TextInformationFrameIdentifier::TIPL,
            0x54454E43 => TextInformationFrameIdentifier::TENC,
            0x5442504D => TextInformationFrameIdentifier::TBPM,
            0x544C454E => TextInformationFrameIdentifier::TLEN,
            0x544B4559 => TextInformationFrameIdentifier::TKEY,
            0x544C414E => TextInformationFrameIdentifier::TLAN,
            0x54434F4E => TextInformationFrameIdentifier::TCON,
            0x54464C54 => TextInformationFrameIdentifier::TFLT,
            0x544D4544 => TextInformationFrameIdentifier::TMED,
            0x544D4F4F => TextInformationFrameIdentifier::TMOO,
            0x54434F50 => TextInformationFrameIdentifier::TCOP,
            0x5450524F => TextInformationFrameIdentifier::TPRO,
            0x54505542 => TextInformationFrameIdentifier::TPUB,
            0x544F574E => TextInformationFrameIdentifier::TOWN,
            0x5452534E => TextInformationFrameIdentifier::TRSN,
            0x5452534F => TextInformationFrameIdentifier::TRSO,
            0x544F464E => TextInformationFrameIdentifier::TOFN,
            0x54444C59 => TextInformationFrameIdentifier::TDLY,
            0x5444454E => TextInformationFrameIdentifier::TDEN,
            0x54444F52 => TextInformationFrameIdentifier::TDOR,
            0x54445243 => TextInformationFrameIdentifier::TDRC,
            0x5444524C => TextInformationFrameIdentifier::TDRL,
            0x54445447 => TextInformationFrameIdentifier::TDTG,
            0x54535345 => TextInformationFrameIdentifier::TSSE,
            0x54534F41 => TextInformationFrameIdentifier::TSOA,
            0x54534F50 => TextInformationFrameIdentifier::TSOP,
            0x54534F54 => TextInformationFrameIdentifier::TSOT,
            0x54444154 => TextInformationFrameIdentifier::TDAT,
            0x54494D45 => TextInformationFrameIdentifier::TIME,
            0x544F5259 => TextInformationFrameIdentifier::TORY,
            0x54524441 => TextInformationFrameIdentifier::TRDA,
            0x5453495A => TextInformationFrameIdentifier::TSIZ,
            0x54594552 => TextInformationFrameIdentifier::TYER,
            0x54585858 => TextInformationFrameIdentifier::TXXX,
            _ => TextInformationFrameIdentifier::UNLISTED(code),
        }
    }

    /// The four-byte code of the identifier.
    pub fn code(&self) -> (code: u32)
        ensures
            code == self.spec_code(),
    {
        match self {
            TextInformationFrameIdentifier::TIT1 => 0x54495431,
            TextInformationFrameIdentifier::TIT2 => 0x54495432,
            TextInformationFrameIdentifier::TIT3 => 0x54495433,
            TextInformationFrameIdentifier::TALB => 0x54414C42,
            TextInformationFrameIdentifier::TOAL => 0x544F414C,
            TextInformationFrameIdentifier::TRCK => 0x5452434B,
            TextInformationFrameIdentifier::TPOS => 0x54504F53,
            TextInformationFrameIdentifier::TSST => 0x54535354,
            TextInformationFrameIdentifier::TSRC => 0x54535243,
            TextInformationFrameIdentifier::TPE1 => 0x54504531,
            TextInformationFrameIdentifier::TPE2 => 0x54504532,
            TextInformationFrameIdentifier::TPE3 => 0x54504533,
            TextInformationFrameIdentifier::TPE4 => 0x54504534,
            TextInformationFrameIdentifier::TOPE => 0x544F5045,
            TextInformationFrameIdentifier::TEXT => 0x54455854,
            TextInformationFrameIdentifier::TOLY => 0x544F4C59,
            TextInformationFrameIdentifier::TCOM => 0x54434F4D,
            TextInformationFrameIdentifier::TMCL => 0x544D434C,
            TextInformationFrameIdentifier::TIPL => 0x5449504C,
            TextInformationFrameIdentifier::TENC => 0x54454E43,
            TextInformationFrameIdentifier::TBPM => 0x5442504D,
            TextInformationFrameIdentifier::TLEN => 0x544C454E,
            TextInformationFrameIdentifier::TKEY => 0x544B4559,
            TextInformationFrameIdentifier::TLAN => 0x544C414E,
            TextInformationFrameIdentifier::TCON => 0x54434F4E,
            TextInformationFrameIdentifier::TFLT => 0x54464C54,
            TextInformationFrameIdentifier::TMED => 0x544D4544,
            TextInformationFrameIdentifier::TMOO => 0x544D4F4F,
            TextInformationFrameIdentifier::TCOP => 0x54434F50,
            TextInformationFrameIdentifier::TPRO => 0x5450524F,
            TextInformationFrameIdentifier::TPUB => 0x54505542,
            TextInformationFrameIdentifier::TOWN => 0x544F574E,
            TextInformationFrameIdentifier::TRSN => 0x5452534E,
            TextInformationFrameIdentifier::TRSO => 0x5452534F,
            TextInformationFrameIdentifier::TOFN => 0x544F464E,
            TextInformationFrameIdentifier::TDLY => 0x54444C59,
            TextInformationFrameIdentifier::TDEN => 0x5444454E,
            TextInformationFrameIdentifier::TDOR => 0x54444F52,
            TextInformationFrameIdentifier::TDRC => 0x54445243,
            TextInformationFrameIdentifier::TDRL => 0x5444524C,
            TextInformationFrameIdentifier::TDTG => 0x54445447,
            TextInformationFrameIdentifier::TSSE => 0x54535345,
            TextInformationFrameIdentifier::TSOA => 0x54534F41,
            TextInformationFrameIdentifier::TSOP => 0x54534F50,
            TextInformationFrameIdentifier::TSOT => 0x54534F54,
            TextInformationFrameIdentifier::TDAT => 0x54444154,
            TextInformationFrameIdentifier::TIME => 0x54494D45,
            TextInformationFrameIdentifier::TORY => 0x544F5259,
            TextInformationFrameIdentifier::TRDA => 0x54524441,
            TextInformationFrameIdentifier::TSIZ => 0x5453495A,
            TextInformationFrameIdentifier::TYER => 0x54594552,
            TextInformationFrameIdentifier::TXXX => 0x54585858,
            TextInformationFrameIdentifier::UNLISTED(code) => *code,
        }
    }

    /// The identifier as text: the four characters of its code.
    pub fn to_string(&self) -> (text: String)
        ensures
            text@ == code_text(self.spec_code()),
    {
        code_to_text(self.code())
    }
}

/// URL link frames.
#[derive(Clone, Copy, Debug, PartialEq, Eq, Structural)]
pub enum URLLinkFrameIdentifier {
    WCOM,
    WCOP,
    WOAF,
    WOAR,
    WOAS,
    WORS,
    WPAY,
    WPUB,
    WXXX,
    /// A code that starts with `W` and is not in the catalog.
    UNLISTED(u32),
}

impl URLLinkFrameIdentifier {
    /// The identifier that a four-byte code names.
    pub open spec fn spec_from(code: u32) -> URLLinkFrameIdentifier {
        if code == 0x57434F4D {
            URLLinkFrameIdentifier::WCOM
        } else if code == 0x57434F50 {
            URLLinkFrameIdentifier::WCOP
        } else if code == 0x574F4146 {
            URLLinkFrameIdentifier::WOAF
        } else if code == 0x574F4152 {
            URLLinkFrameIdentifier::WOAR
        } else if code == 0x574F4153 {
            URLLinkFrameIdentifier::WOAS
        } else if code == 0x574F5253 {
            URLLinkFrameIdentifier::WORS
        } else if code == 0x57504159 {
            URLLinkFrameIdentifier::WPAY
        } else if code == 0x57505542 {
            URLLinkFrameIdentifier::WPUB
        } else if code == 0x57585858 {
            URLLinkFrameIdentifier::WXXX
        } else {
            URLLinkFrameIdentifier::UNLISTED(code)
        }
    }

    /// The four-byte code of the identifier, its first byte highest.
    pub open spec fn spec_code(self) -> u32 {
        match self {
            URLLinkFrameIdentifier::WCOM => 0x57434F4D,
            URLLinkFrameIdentifier::WCOP => 0x57434F50,
            URLLinkFrameIdentifier::WOAF => 0x574F4146,
            URLLinkFrameIdentifier::WOAR => 0x574F4152,
            URLLinkFrameIdentifier::WOAS => 0x574F4153,
            URLLinkFrameIdentifier::WORS => 0x574F5253,
            URLLinkFrameIdentifier::WPAY => 0x57504159,
            URLLinkFrameIdentifier::WPUB => 0x57505542,
            URLLinkFrameIdentifier::WXXX => 0x57585858,
            URLLinkFrameIdentifier::UNLISTED(code) => code,
        }
    }

    /// The identifier with the four-byte code `code`.
    pub fn from(code: u32) -> (id: URLLinkFrameIdentifier)
        ensures
            id == URLLinkFrameIdentifier::spec_from(code),
            id.spec_code() == code,
    {
        match code {
            0x57434F4D => URLLinkFrameIdentifier::WCOM,
            0x57434F50 => URLLinkFrameIdentifier::WCOP,
            0x574F4146 => URLLinkFrameIdentifier::WOAF,
            0x574F4152 => URLLinkFrameIdentifier::WOAR,
            0x574F4153 => URLLinkFrameIdentifier::WOAS,
            0x574F5253 => URLLinkFrameIdentifier::WORS,
            0x57504159 => URLLinkFrameIdentifier::WPAY,
            0x57505542 => URLLinkFrameIdentifier::WPUB,
            0x57585858 => URLLinkFrameIdentifier::WXXX,
            _ => URLLinkFrameIdentifier::UNLISTED(code),
        }
    }

    /// The four-byte code of the identifier.
    pub fn code(&self) -> (code: u32)
        ensures
            code == self.spec_code(),
    {
        match self {
            URLLinkFrameIdentifier::WCOM => 0x57434F4D,
            URLLinkFrameIdentifier::WCOP => 0x57434F50,
            URLLinkFrameIdentifier::WOAF => 0x574F4146,
            URLLinkFrameIdentifier::WOAR => 0x574F4152,
            URLLinkFrameIdentifier::WOAS => 0x574F4153,
            URLLinkFrameIdentifier::WORS => 0x574F5253,
            URLLinkFrameIdentifier::WPAY => 0x57504159,
            URLLinkFrameIdentifier::WPUB => 0x57505542,
            URLLinkFrameIdentifier::WXXX => 0x57585858,
            URLLinkFrameIdentifier::UNLISTED(code) => *code,
        }
    }

    /// The identifier as text: the four characters of its code.
    pub fn to_string(&self) -> (text: String)
        ensures
            text@ == code_text(self.spec_code()),
    {
        code_to_text(self.code())
    }
}

/// Frames that are defined but rarely met; their payload is not decoded.
#[derive(Clone, Copy, Debug, PartialEq, Eq, Structural)]
pub enum RarelyUsedFrameIdentifier {
    IPLS,
    MCDI,
    ETCO,
    MLLT,
    SYTC,
    RVA2,
    RVAD,
    EQUA,
    EQU2,
    RVRB,
    GEOB,
    PCNT,
    POPM,
    RBUF,
    AENC,
    LINK,
    POSS,
    USER,
    OWNE,
    COMR,
    ENCR,
    GRID,
    PRIV,
    SIGN,
    SEEK,
    ASPI,
    CHAP,
    CTOC,
    /// A code outside the catalog.
    UNIMPLEMENT(u32),
}

impl RarelyUsedFrameIdentifier {
    /// The identifier that a four-byte code names.
    pub open spec fn spec_from(code: u32) -> RarelyUsedFrameIdentifier {
        if code == 0x49504C53 {
            RarelyUsedFrameIdentifier::IPLS
        } else if code == 0x4D434449 {
            RarelyUsedFrameIdentifier::MCDI
        } else if code == 0x4554434F {
            RarelyUsedFrameIdentifier::ETCO
        } else if code == 0x4D4C4C54 {
            RarelyUsedFrameIdentifier::MLLT
        } else if code == 0x53595443 {
            RarelyUsedFrameIdentifier::SYTC
        } else if code == 0x52564132 {
            RarelyUsedFrameIdentifier::RVA2
        } else if code == 0x52564144 {
            RarelyUsedFrameIdentifier::RVAD
        } else if code == 0x45515541 {
            RarelyUsedFrameIdentifier::EQUA
        } else if code == 0x45515532 {
            RarelyUsedFrameIdentifier::EQU2
        } else if code == 0x52565242 {
            RarelyUsedFrameIdentifier::RVRB
        } else if code == 0x47454F42 {
            RarelyUsedFrameIdentifier::GEOB
        } else if code == 0x50434E54 {
            RarelyUsedFrameIdentifier::PCNT
        } else if code == 0x504F504D {
            RarelyUsedFrameIdentifier::POPM
        } else if code == 0x52425546 {
            RarelyUsedFrameIdentifier::RBUF
        } else if code == 0x41454E43 {
            RarelyUsedFrameIdentifier::AENC
        } else if code == 0x4C494E4B {
            RarelyUsedFrameIdentifier::LINK
        } else if code == 0x504F5353 {
            RarelyUsedFrameIdentifier::POSS
        } else if code == 0x55534552 {
            RarelyUsedFrameIdentifier::USER
        } else if code == 0x4F574E45 {
            RarelyUsedFrameIdentifier::OWNE
        } else if code == 0x434F4D52 {
            RarelyUsedFrameIdentifier::COMR
        } else if code == 0x454E4352 {
            RarelyUsedFrameIdentifier::ENCR
        } else if code == 0x47524944 {
            RarelyUsedFrameIdentifier::GRID
        } else if code == 0x50524956 {
            RarelyUsedFrameIdentifier::PRIV
        } else if code == 0x5349474E {
            RarelyUsedFrameIdentifier::SIGN
        } else if code == 0x5345454B {
            RarelyUsedFrameIdentifier::SEEK
        } else if code == 0x41535049 {
            RarelyUsedFrameIdentifier::ASPI
        } else if code == 0x43484150 {
            RarelyUsedFrameIdentifier::CHAP
        } else if code == 0x43544F43 {
            RarelyUsedFrameIdentifier::CTOC
        } else {
            RarelyUsedFrameIdentifier::UNIMPLEMENT(code)
        }
    }

    /// The four-byte code of the identifier, its first byte highest.
    pub open spec fn spec_code(self) -> u32 {
        match self {
            RarelyUsedFrameIdentifier::IPLS => 0x49504C53,
            RarelyUsedFrameIdentifier::MCDI => 0x4D434449,
            RarelyUsedFrameIdentifier::ETCO => 0x4554434F,
            RarelyUsedFrameIdentifier::MLLT => 0x4D4C4C54,
            RarelyUsedFrameIdentifier::SYTC => 0x53595443,
            RarelyUsedFrameIdentifier::RVA2 => 0x52564132,
            RarelyUsedFrameIdentifier::RVAD => 0x52564144,
            RarelyUsedFrameIdentifier::EQUA => 0x45515541,
            RarelyUsedFrameIdentifier::EQU2 => 0x45515532,
            RarelyUsedFrameIdentifier::RVRB => 0x52565242,
            RarelyUsedFrameIdentifier::GEOB => 0x47454F42,
            RarelyUsedFrameIdentifier::PCNT => 0x50434E54,
            RarelyUsedFrameIdentifier::POPM => 0x504F504D,
            RarelyUsedFrameIdentifier::RBUF => 0x52425546,
            RarelyUsedFrameIdentifier::AENC => 0x41454E43,
            RarelyUsedFrameIdentifier::LINK => 0x4C494E4B,
            RarelyUsedFrameIdentifier::POSS => 0x504F5353,
            RarelyUsedFrameIdentifier::USER => 0x55534552,
            RarelyUsedFrameIdentifier::OWNE => 0x4F574E45,
            RarelyUsedFrameIdentifier::COMR => 0x434F4D52,
            RarelyUsedFrameIdentifier::ENCR => 0x454E4352,
            RarelyUsedFrameIdentifier::GRID => 0x47524944,
            RarelyUsedFrameIdentifier::PRIV => 0x50524956,
            RarelyUsedFrameIdentifier::SIGN => 0x5349474E,
            RarelyUsedFrameIdentifier::SEEK => 0x5345454B,
            RarelyUsedFrameIdentifier::ASPI => 0x41535049,
            RarelyUsedFrameIdentifier::CHAP => 0x43484150,
            RarelyUsedFrameIdentifier::CTOC => 0x43544F43,
            RarelyUsedFrameIdentifier::UNIMPLEMENT(code) => code,
        }
    }

    /// The identifier with the four-byte code `code`.
    pub fn from(code: u32) -> (id: RarelyUsedFrameIdentifier)
        ensures
            id == RarelyUsedFrameIdentifier::spec_from(code),
            id.spec_code() == code,
    {
        match code {
            0x49504C53 => RarelyUsedFrameIdentifier::IPLS,
            0x4D434449 => RarelyUsedFrameIdentifier::MCDI,
            0x4554434F => RarelyUsedFrameIdentifier::ETCO,
            0x4D4C4C54 => RarelyUsedFrameIdentifier::MLLT,
            0x53595443 => RarelyUsedFrameIdentifier::SYTC,
            0x52564132 => RarelyUsedFrameIdentifier::RVA2,
            0x52564144 => RarelyUsedFrameIdentifier::RVAD,
            0x45515541 => RarelyUsedFrameIdentifier::EQUA,
            0x45515532 => RarelyUsedFrameIdentifier::EQU2,
            0x52565242 => RarelyUsedFrameIdentifier::RVRB,
            0x47454F42 => RarelyUsedFrameIdentifier::GEOB,
            0x50434E54 => RarelyUsedFrameIdentifier::PCNT,
            0x504F504D => RarelyUsedFrameIdentifier::POPM,
            0x52425546 => RarelyUsedFrameIdentifier::RBUF,
            0x41454E43 => RarelyUsedFrameIdentifier::AENC,
            0x4C494E4B => RarelyUsedFrameIdentifier::LINK,
            0x504F5353 => RarelyUsedFrameIdentifier::POSS,
            0x55534552 => RarelyUsedFrameIdentifier::USER,
            0x4F574E45 => RarelyUsedFrameIdentifier::OWNE,
            0x434F4D52 => RarelyUsedFrameIdentifier::COMR,
            0x454E4352 => RarelyUsedFrameIdentifier::ENCR,
            0x47524944 => RarelyUsedFrameIdentifier::GRID,
            0x50524956 => RarelyUsedFrameIdentifier::PRIV,
            0x5349474E => RarelyUsedFrameIdentifier::SIGN,
            0x5345454B => RarelyUsedFrameIdentifier::SEEK,
            0x41535049 => RarelyUsedFrameIdentifier::ASPI,
            0x43484150 => RarelyUsedFrameIdentifier::CHAP,
            0x43544F43 => RarelyUsedFrameIdentifier::CTOC,
            _ => RarelyUsedFrameIdentifier::UNIMPLEMENT(code),
        }
    }

    /// The four-byte code of the identifier.
    pub fn code(&self) -> (code: u32)
        ensures
            code == self.spec_code(),
    {
        match self {
            RarelyUsedFrameIdentifier::IPLS => 0x49504C53,
            RarelyUsedFrameIdentifier::MCDI => 0x4D434449,
            RarelyUsedFrameIdentifier::ETCO => 0x4554434F,
            RarelyUsedFrameIdentifier::MLLT => 0x4D4C4C54,
            RarelyUsedFrameIdentifier::SYTC => 0x53595443,
            RarelyUsedFrameIdentifier::RVA2 => 0x52564132,
            RarelyUsedFrameIdentifier::RVAD => 0x52564144,
            RarelyUsedFrameIdentifier::EQUA => 0x45515541,
            RarelyUsedFrameIdentifier::EQU2 => 0x45515532,
            RarelyUsedFrameIdentifier::RVRB => 0x52565242,
            RarelyUsedFrameIdentifier::GEOB => 0x47454F42,
            RarelyUsedFrameIdentifier::PCNT => 0x50434E54,
            RarelyUsedFrameIdentifier::POPM => 0x504F504D,
            RarelyUsedFrameIdentifier::RBUF => 0x52425546,
            RarelyUsedFrameIdentifier::AENC => 0x41454E43,
            RarelyUsedFrameIdentifier::LINK => 0x4C494E4B,
            RarelyUsedFrameIdentifier::POSS => 0x504F5353,
            RarelyUsedFrameIdentifier::USER => 0x55534552,
            RarelyUsedFrameIdentifier::OWNE => 0x4F574E45,
            RarelyUsedFrameIdentifier::COMR => 0x434F4D52,
            RarelyUsedFrameIdentifier::ENCR => 0x454E4352,
            RarelyUsedFrameIdentifier::GRID => 0x47524944,
            RarelyUsedFrameIdentifier::PRIV => 0x50524956,
            RarelyUsedFrameIdentifier::SIGN => 0x5349474E,
            RarelyUsedFrameIdentifier::SEEK => 0x5345454B,
            RarelyUsedFrameIdentifier::ASPI => 0x41535049,
            RarelyUsedFrameIdentifier::CHAP => 0x43484150,
            RarelyUsedFrameIdentifier::CTOC => 0x43544F43,
            RarelyUsedFrameIdentifier::UNIMPLEMENT(code) => *code,
        }
    }

    /// The identifier as text: the four characters of its code.
    pub fn to_string(&self) -> (text: String)
        ensures
            text@ == code_text(self.spec_code()),
    {
        code_to_text(self.code())
    }
}
} // verus!
