use vstd::prelude::*;

use crate::id3::frames::common::Encoding;
use crate::id3::frames::identifiers::{CODE_TXXX, code_text, code_to_text};

verus! {

/// A user-defined text.
#[allow(non_snake_case)]
#[derive(Debug)]
pub struct TXXX {
    pub encoding: Encoding,
    pub description: String,
    pub data: String,
}

/// What a value of `TXXX` holds.
#[allow(non_snake_case)]
pub struct TxxxView {
    pub encoding: Encoding,
    pub description: Seq<char>,
    pub data: Seq<char>,
}

impl TxxxView {
    /// The identifier under which the frame is kept.
    pub open spec fn identifier(self) -> Seq<char> {
        code_text(CODE_TXXX)
    }

    /// The text that the frame shows.
    pub open spec fn message(self) -> Seq<char> {
        self.data
    }

    /// The bytes that the frame keeps undecoded.
    pub open spec fn raw(self) -> Seq<u8> {
        Seq::empty()
    }
}

impl View for TXXX {
    type V = TxxxView;

    open spec fn view(&self) -> TxxxView {
        TxxxView {
            encoding: self.encoding,
            description: self.description@,
            data: self.data@,
        }
    }
}

impl TXXX {
    #[allow(non_snake_case)]
    pub fn new(
        encoding: Encoding,
        description: String,
        data: String,
    ) -> (frame: TXXX)
        ensures
            frame@ == (TxxxView {
                encoding,
                description: description@,
                data: data@,
            }),
    {
        TXXX {
            encoding,
            description,
            data,
        }
    }

    /// The identifier under which the frame is kept.
    pub fn identifier(&self) -> (text: String)
        ensures
            text@ == self@.identifier(),
    {
        code_to_text(CODE_TXXX)
    }

    /// The text that the frame shows.
    pub fn message(&self) -> (text: String)
        ensures
            text@ == self@.message(),
    {
        self.data.clone()
    }

    /// The bytes that the frame keeps undecoded.
    pub fn raw(&self) -> (bytes: Vec<u8>)
        ensures
            bytes@ == self@.raw(),
    {
        Vec::new()
    }
}

} // verus!
