use vstd::prelude::*;

use crate::id3::frames::common::Encoding;
use crate::id3::frames::identifiers::{CODE_APIC, code_text, code_to_text};
use crate::util::copy_range;

verus! {

/// What a picture shows, as its type code says.
#[derive(Clone, Copy, Debug, PartialEq, Eq, Structural)]
pub enum PicType {
    Other,
    FileIcon32x32,
    OtherFileIcon,
    FrontCover,
    BackCover,
    LeafletPage,
    Media,
    LeadArtist,
    ArtistOrPerformer,
    Conductor,
    BandOrOrchestra,
    Composer,
    LyricistWriter,
    RecordingLocation,
    DuringRecording,
    DuringPerformence,
    MovieOrVideoScreenCapture,
    ABrightColouredFish,
    Illustration,
    BandOrArtistLogotype,
    PublisherOrStudioLogoType,
    /// A type code above 0x14, to which the format gives no meaning.
    Undefined,
}

impl Default for PicType {
    fn default() -> (t: PicType)
        ensures
            t == PicType::Other,
    {
        PicType::Other
    }
}

impl PicType {
    /// The picture type with the type code `value`.
    pub open spec fn spec_from(value: int) -> PicType {
        if value == 0x00 {
            PicType::Other
        } else if value == 0x01 {
            PicType::FileIcon32x32
        } else if value == 0x02 {
            PicType::OtherFileIcon
        } else if value == 0x03 {
            PicType::FrontCover
        } else if value == 0x04 {
            PicType::BackCover
        } else if value == 0x05 {
            PicType::LeafletPage
        } else if value == 0x06 {
            PicType::Media
        } else if value == 0x07 {
            PicType::LeadArtist
        } else if value == 0x08 {
            PicType::ArtistOrPerformer
        } else if value == 0x09 {
            PicType::Conductor
        } else if value == 0x0A {
            PicType::BandOrOrchestra
        } else if value == 0x0B {
            PicType::Composer
        } else if value == 0x0C {
            PicType::LyricistWriter
        } else if value == 0x0D {
            PicType::RecordingLocation
        } else if value == 0x0E {
            PicType::DuringRecording
        } else if value == 0x0F {
            PicType::DuringPerformence
        } else if value == 0x10 {
            PicType::MovieOrVideoScreenCapture
        } else if value == 0x11 {
            PicType::ABrightColouredFish
        } else if value == 0x12 {
            PicType::Illustration
        } else if value == 0x13 {
            PicType::BandOrArtistLogotype
        } else if value == 0x14 {
            PicType::PublisherOrStudioLogoType
        } else {
            PicType::Undefined
        }
    }

    /// The name of the picture type.
    pub open spec fn spec_name(self) -> Seq<char> {
        match self {
            PicType::Other => "Other"@,
            PicType::FileIcon32x32 => "FileIcon32x32"@,
            PicType::OtherFileIcon => "OtherFileIcon"@,
            PicType::FrontCover => "FrontCover"@,
            PicType::BackCover => "BackCover"@,
            PicType::LeafletPage => "LeafletPage"@,
            PicType::Media => "Media"@,
            PicType::LeadArtist => "LeadArtist"@,
            PicType::ArtistOrPerformer => "ArtistOrPerformer"@,
            PicType::Conductor => "Conductor"@,
            PicType::BandOrOrchestra => "BandOrOrchestra"@,
            PicType::Composer => "Composer"@,
            PicType::LyricistWriter => "LyricistWriter"@,
            PicType::RecordingLocation => "RecordingLocation"@,
            PicType::DuringRecording => "DuringRecording"@,
            PicType::DuringPerformence => "DuringPerformence"@,
            PicType::MovieOrVideoScreenCapture => "MovieOrVideoScreenCapture"@,
            PicType::ABrightColouredFish => "ABrightColouredFish"@,
            PicType::Illustration => "Illustration"@,
            PicType::BandOrArtistLogotype => "BandOrArtistLogotype"@,
            PicType::PublisherOrStudioLogoType => "PublisherOrStudioLogoType"@,
            PicType::Undefined => "Undefined"@,
        }
    }

    /// The picture type with the type code `value`.
    pub fn from(value: u8) -> (t: PicType)
        ensures
            t == PicType::spec_from(value as int),
    {
        match value {
            0x00 => PicType::Other,
            0x01 => PicType::FileIcon32x32,
            0x02 => PicType::OtherFileIcon,
            0x03 => PicType::FrontCover,
            0x04 => PicType::BackCover,
            0x05 => PicType::LeafletPage,
            0x06 => PicType::Media,
            0x07 => PicType::LeadArtist,
            0x08 => PicType::ArtistOrPerformer,
            0x09 => PicType::Conductor,
            0x0A => PicType::BandOrOrchestra,
            0x0B => PicType::Composer,
            0x0C => PicType::LyricistWriter,
            0x0D => PicType::RecordingLocation,
            0x0E => PicType::DuringRecording,
            0x0F => PicType::DuringPerformence,
            0x10 => PicType::MovieOrVideoScreenCapture,
            0x11 => PicType::ABrightColouredFish,
            0x12 => PicType::Illustration,
            0x13 => PicType::BandOrArtistLogotype,
            0x14 => PicType::PublisherOrStudioLogoType,
            _ => PicType::Undefined,
        }
    }

    /// The picture type with the 32-bit type code `code`.
    pub fn from_code(code: u32) -> (t: PicType)
        ensures
            t == PicType::spec_from(code as int),
    {
        if code <= 0x14 {
            PicType::from(code as u8)
        } else {
            PicType::Undefined
        }
    }

    /// The name of the picture type.
    pub fn to_string(&self) -> (name: String)
        ensures
            name@ == self.spec_name(),
    {
        match self {
            PicType::Other => "Other".to_owned(),
            PicType::FileIcon32x32 => "FileIcon32x32".to_owned(),
            PicType::OtherFileIcon => "OtherFileIcon".to_owned(),
            PicType::FrontCover => "FrontCover".to_owned(),
            PicType::BackCover => "BackCover".to_owned(),
            PicType::LeafletPage => "LeafletPage".to_owned(),
            PicType::Media => "Media".to_owned(),
            PicType::LeadArtist => "LeadArtist".to_owned(),
            PicType::ArtistOrPerformer => "ArtistOrPerformer".to_owned(),
            PicType::Conductor => "Conductor".to_owned(),
            PicType::BandOrOrchestra => "BandOrOrchestra".to_owned(),
            PicType::Composer => "Composer".to_owned(),
            PicType::LyricistWriter => "LyricistWriter".to_owned(),
            PicType::RecordingLocation => "RecordingLocation".to_owned(),
            PicType::DuringRecording => "DuringRecording".to_owned(),
            PicType::DuringPerformence => "DuringPerformence".to_owned(),
            PicType::MovieOrVideoScreenCapture => "MovieOrVideoScreenCapture".to_owned(),
            PicType::ABrightColouredFish => "ABrightColouredFish".to_owned(),
            PicType::Illustration => "Illustration".to_owned(),
            PicType::BandOrArtistLogotype => "BandOrArtistLogotype".to_owned(),
            PicType::PublisherOrStudioLogoType => "PublisherOrStudioLogoType".to_owned(),
            PicType::Undefined => "Undefined".to_owned(),
        }
    }
}


/// An attached picture. `data` holds the image and, behind it, the byte of
/// the picture type.
#[allow(non_snake_case)]
#[derive(Debug)]
pub struct APIC {
    pub identifier: String,
    pub encoding: Encoding,
    pub MIME_type: String,
    pub picture_type: PicType,
    pub description: String,
    pub data: Vec<u8>,
}

/// What a value of `APIC` holds.
#[allow(non_snake_case)]
pub struct ApicView {
    pub identifier: Seq<char>,
    pub encoding: Encoding,
    pub MIME_type: Seq<char>,
    pub picture_type: PicType,
    pub description: Seq<char>,
    pub data: Seq<u8>,
}

impl ApicView {
    /// The identifier under which the frame is kept.
    pub open spec fn identifier(self) -> Seq<char> {
        self.identifier
    }

    /// The text that the frame shows.
    pub open spec fn message(self) -> Seq<char> {
        self.description
    }

    /// The image: `data` without the type byte at its end.
    pub open spec fn raw(self) -> Seq<u8> {
        if self.data.len() > 0 {
            self.data.drop_last()
        } else {
            self.data
        }
    }
}

impl View for APIC {
    type V = ApicView;

    open spec fn view(&self) -> ApicView {
        ApicView {
            identifier: self.identifier@,
            encoding: self.encoding,
            MIME_type: self.MIME_type@,
            picture_type: self.picture_type,
            description: self.description@,
            data: self.data@,
        }
    }
}

impl APIC {
    #[allow(non_snake_case)]
    pub fn new(
        encoding: Encoding,
        MIME_type: String,
        picture_type: PicType,
        description: String,
        data: Vec<u8>,
    ) -> (frame: APIC)
        ensures
            frame@ == (ApicView {
                identifier: code_text(CODE_APIC),
                encoding,
                MIME_type: MIME_type@,
                picture_type,
                description: description@,
                data: data@,
            }),
    {
        APIC {
            identifier: code_to_text(CODE_APIC),
            encoding,
            MIME_type,
            picture_type,
            description,
            data,
        }
    }

    /// The identifier under which the frame is kept.
    pub fn identifier(&self) -> (text: String)
        ensures
            text@ == self@.identifier(),
    {
        self.identifier.clone()
    }

    /// The text that the frame shows.
    pub fn message(&self) -> (text: String)
        ensures
            text@ == self@.message(),
    {
        self.description.clone()
    }

    /// The image: `data` without the type byte at its end.
    pub fn raw(&self) -> (bytes: Vec<u8>)
        ensures
            bytes@ == self@.raw(),
    {
        let kept: usize = if self.data.len() > 0 {
            self.data.len() - 1
        } else {
            0
        };
        let bytes = copy_range(self.data.as_slice(), 0, kept);
        assert(bytes@ =~= self@.raw());
        bytes
    }
}

} // verus!
