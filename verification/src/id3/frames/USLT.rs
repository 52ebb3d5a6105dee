use vstd::prelude::*;

use crate::id3::frames::common::Encoding;
use crate::id3::frames::identifiers::{CODE_USLT, code_text, code_to_text};

verus! {

/// Unsynchronised lyrics.
#[allow(non_snake_case)]
#[derive(Debug)]
pub struct USLT {
    pub identifier: String,
    pub encoding: Encoding,
    pub language: String,
    pub descriptor: String,
    pub data: String,
}

/// What a value of `USLT` holds.
#[allow(non_snake_case)]
pub struct UsltView {
    pub identifier: Seq<char>,
    pub encoding: Encoding,
    pub language: Seq<char>,
    pub descriptor: Seq<char>,
    pub data: Seq<char>,
}

impl UsltView {
    /// The identifier under which the frame is kept.
    pub open spec fn identifier(self) -> Seq<char> {
        self.identifier
    }

    /// The text that the frame shows.
    pub open spec fn message(self) -> Seq<char> {
        self.data
    }

    /// The bytes that the frame keeps undecoded.
    pub open spec fn raw(self) -> Seq<u8> {
        Seq::empty()
    }
}

impl View for USLT {
    type V = UsltView;

    open spec fn view(&self) -> UsltView {
        UsltView {
            identifier: self.identifier@,
            encoding: self.encoding,
            language: self.language@,
            descriptor: self.descriptor@,
            data: self.data@,
        }
    }
}

impl USLT {
    #[allow(non_snake_case)]
    pub fn new(
        encoding: Encoding,
        language: String,
        descriptor: String,
        data: String,
    ) -> (frame: USLT)
        ensures
            frame@ == (UsltView {
                identifier: code_text(CODE_USLT),
                encoding,
                language: language@,
                descriptor: descriptor@,
                data: data@,
            }),
    {
        USLT {
            identifier: code_to_text(CODE_USLT),
            encoding,
            language,
            descriptor,
            data,
        }
    }

    /// The identifier under which the frame is kept.
    pub fn identifier(&self) -> (text: String)
        ensures
            text@ == self@.identifier(),
    {
        self.identifier.clone()
    }

    /// The text that the frame shows.
    pub fn message(&self) -> (text: String)
        ensures
            text@ == self@.message(),
    {
        self.data.clone()
    }

    /// The bytes that the frame keeps undecoded.
    pub fn raw(&self) -> (bytes: Vec<u8>)
        ensures
            bytes@ == self@.raw(),
    {
        Vec::new()
    }
}

} // verus!
