use vstd::prelude::*;

use crate::id3::frames::rarely_used::{RarelyUsed, RarelyUsedView};
use crate::id3::frames::text_infomation_frame::{TextInfomationFrame, TextView};
use crate::id3::frames::url_link_frame::{URLLinkFrame, UrlView};
use crate::id3::frames::APIC::{ApicView, APIC};
use crate::id3::frames::COMM::{CommView, COMM};
use crate::id3::frames::SYLT::{SyltView, SYLT};
use crate::id3::frames::TXXX::{TxxxView, TXXX};
use crate::id3::frames::USLT::{UsltView, USLT};
use crate::id3::frames::WXXX::{WxxxView, WXXX};

verus! {

/// Text encodings of ID3v2 payloads.
#[allow(non_camel_case_types)]
#[derive(Clone, Copy, Debug, PartialEq, Eq, Structural)]
pub enum Encoding {
    ISO_8859_1,
    UTF16_LE,
    UTF16_WITH_BOM,
    UTF16_BE,
    UTF8,
}

/// A decoded frame of any family.
#[derive(Debug)]
pub enum TagValue {
    TextInformation(TextInfomationFrame),
    URLLink(URLLinkFrame),
    AttachedPicture(APIC),
    Comment(COMM),
    SyncedLyrics(SYLT),
    UnsyncedLyrics(USLT),
    UserText(TXXX),
    UserURL(WXXX),
    RarelyUsedRaw(RarelyUsed),
}

/// What a decoded frame holds.
pub enum TagView {
    TextInformation(TextView),
    URLLink(UrlView),
    AttachedPicture(ApicView),
    Comment(CommView),
    SyncedLyrics(SyltView),
    UnsyncedLyrics(UsltView),
    UserText(TxxxView),
    UserURL(WxxxView),
    RarelyUsedRaw(RarelyUsedView),
}

impl TagView {
    /// The identifier under which the frame is kept.
    pub open spec fn identifier(self) -> Seq<char> {
        match self {
            TagView::TextInformation(f) => f.identifier(),
            TagView::URLLink(f) => f.identifier(),
            TagView::AttachedPicture(f) => f.identifier(),
            TagView::Comment(f) => f.identifier(),
            TagView::SyncedLyrics(f) => f.identifier(),
            TagView::UnsyncedLyrics(f) => f.identifier(),
            TagView::UserText(f) => f.identifier(),
            TagView::UserURL(f) => f.identifier(),
            TagView::RarelyUsedRaw(f) => f.identifier(),
        }
    }

    /// The text that the frame shows.
    pub open spec fn message(self) -> Seq<char> {
        match self {
            TagView::TextInformation(f) => f.message(),
            TagView::URLLink(f) => f.message(),
            TagView::AttachedPicture(f) => f.message(),
            TagView::Comment(f) => f.message(),
            TagView::SyncedLyrics(f) => f.message(),
            TagView::UnsyncedLyrics(f) => f.message(),
            TagView::UserText(f) => f.message(),
            TagView::UserURL(f) => f.message(),
            TagView::RarelyUsedRaw(f) => f.message(),
        }
    }

    /// The bytes that the frame keeps undecoded; none for a frame of text.
    pub open spec fn raw(self) -> Seq<u8> {
        match self {
            TagView::TextInformation(f) => f.raw(),
            TagView::URLLink(f) => f.raw(),
            TagView::AttachedPicture(f) => f.raw(),
            TagView::Comment(f) => f.raw(),
            TagView::SyncedLyrics(f) => f.raw(),
            TagView::UnsyncedLyrics(f) => f.raw(),
            TagView::UserText(f) => f.raw(),
            TagView::UserURL(f) => f.raw(),
            TagView::RarelyUsedRaw(f) => f.raw(),
        }
    }
}

impl View for TagValue {
    type V = TagView;

    open spec fn view(&self) -> TagView {
        match self {
            TagValue::TextInformation(f) => TagView::TextInformation(f@),
            TagValue::URLLink(f) => TagView::URLLink(f@),
            TagValue::AttachedPicture(f) => TagView::AttachedPicture(f@),
            TagValue::Comment(f) => TagView::Comment(f@),
            TagValue::SyncedLyrics(f) => TagView::SyncedLyrics(f@),
            TagValue::UnsyncedLyrics(f) => TagView::UnsyncedLyrics(f@),
            TagValue::UserText(f) => TagView::UserText(f@),
            TagValue::UserURL(f) => TagView::UserURL(f@),
            TagValue::RarelyUsedRaw(f) => TagView::RarelyUsedRaw(f@),
        }
    }
}

impl TagValue {
    /// The identifier under which the frame is kept.
    pub fn identifier(&self) -> (text: String)
        ensures
            text@ == self@.identifier(),
    {
        match self {
            TagValue::TextInformation(f) => f.identifier(),
            TagValue::URLLink(f) => f.identifier(),
            TagValue::AttachedPicture(f) => f.identifier(),
            TagValue::Comment(f) => f.identifier(),
            TagValue::SyncedLyrics(f) => f.identifier(),
            TagValue::UnsyncedLyrics(f) => f.identifier(),
            TagValue::UserText(f) => f.identifier(),
            TagValue::UserURL(f) => f.identifier(),
            TagValue::RarelyUsedRaw(f) => f.identifier(),
        }
    }

    /// The text that the frame shows.
    pub fn message(&self) -> (text: String)
        ensures
            text@ == self@.message(),
    {
        match self {
            TagValue::TextInformation(f) => f.message(),
            TagValue::URLLink(f) => f.message(),
            TagValue::AttachedPicture(f) => f.message(),
            TagValue::Comment(f) => f.message(),
            TagValue::SyncedLyrics(f) => f.message(),
            TagValue::UnsyncedLyrics(f) => f.message(),
            TagValue::UserText(f) => f.message(),
            TagValue::UserURL(f) => f.message(),
            TagValue::RarelyUsedRaw(f) => f.message(),
        }
    }

    /// The bytes that the frame keeps undecoded.
    pub fn raw(&self) -> (bytes: Vec<u8>)
        ensures
            bytes@ == self@.raw(),
    {
        match self {
            TagValue::TextInformation(f) => f.raw(),
            TagValue::URLLink(f) => f.raw(),
            TagValue::AttachedPicture(f) => f.raw(),
            TagValue::Comment(f) => f.raw(),
            TagValue::SyncedLyrics(f) => f.raw(),
            TagValue::UnsyncedLyrics(f) => f.raw(),
            TagValue::UserText(f) => f.raw(),
            TagValue::UserURL(f) => f.raw(),
            TagValue::RarelyUsedRaw(f) => f.raw(),
        }
    }
}

} // verus!
