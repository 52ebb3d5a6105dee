use vstd::prelude::*;

use crate::id3::frames::common::Encoding;
use crate::id3::frames::identifiers::{CODE_SYLT, code_text, code_to_text};
use crate::util::copy_range;

verus! {

/// Synchronised lyrics; the event stream is kept as it is.
#[allow(non_snake_case)]
#[derive(Debug)]
pub struct SYLT {
    pub identifier: String,
    pub encoding: Encoding,
    pub language: String,
    pub timestamp_format: u8,
    pub ctype: u8,
    pub description: String,
    pub data: Vec<u8>,
}

/// What a value of `SYLT` holds.
#[allow(non_snake_case)]
pub struct SyltView {
    pub identifier: Seq<char>,
    pub encoding: Encoding,
    pub language: Seq<char>,
    pub timestamp_format: u8,
    pub ctype: u8,
    pub description: Seq<char>,
    pub data: Seq<u8>,
}

impl SyltView {
    /// The identifier under which the frame is kept.
    pub open spec fn identifier(self) -> Seq<char> {
        self.identifier
    }

    /// The text that the frame shows.
    pub open spec fn message(self) -> Seq<char> {
        self.description
    }

    /// The bytes that the frame keeps undecoded.
    pub open spec fn raw(self) -> Seq<u8> {
        self.data
    }
}

impl View for SYLT {
    type V = SyltView;

    open spec fn view(&self) -> SyltView {
        SyltView {
            identifier: self.identifier@,
            encoding: self.encoding,
            language: self.language@,
            timestamp_format: self.timestamp_format,
            ctype: self.ctype,
            description: self.description@,
            data: self.data@,
        }
    }
}

impl SYLT {
    #[allow(non_snake_case)]
    pub fn new(
        encoding: Encoding,
        language: String,
        timestamp_format: u8,
        ctype: u8,
        description: String,
        data: Vec<u8>,
    ) -> (frame: SYLT)
        ensures
            frame@ == (SyltView {
                identifier: code_text(CODE_SYLT),
                encoding,
                language: language@,
                timestamp_format,
                ctype,
                description: description@,
                data: data@,
            }),
    {
        SYLT {
            identifier: code_to_text(CODE_SYLT),
            encoding,
            language,
            timestamp_format,
            ctype,
            description,
            data,
        }
    }

    /// The identifier under which the frame is kept.
    pub fn identifier(&self) -> (text: String)
        ensures
            text@ == self@.identifier(),
    {
        self.identifier.clone()
    }

    /// The text that the frame shows.
    pub fn message(&self) -> (text: String)
        ensures
            text@ == self@.message(),
    {
        self.description.clone()
    }

    /// The bytes that the frame keeps undecoded.
    pub fn raw(&self) -> (bytes: Vec<u8>)
        ensures
            bytes@ == self@.raw(),
    {
        copy_range(self.data.as_slice(), 0, self.data.len())
    }
}

} // verus!
