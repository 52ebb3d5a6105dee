use vstd::prelude::*;

use crate::id3::frames::common::Encoding;
use crate::id3::frames::identifiers::{CODE_WXXX, code_text, code_to_text};

verus! {

/// A user-defined URL.
#[allow(non_snake_case)]
#[derive(Debug)]
pub struct WXXX {
    pub encoding: Encoding,
    pub description: String,
    pub data: String,
}

/// What a value of `WXXX` holds.
#[allow(non_snake_case)]
pub struct WxxxView {
    pub encoding: Encoding,
    pub description: Seq<char>,
    pub data: Seq<char>,
}

impl WxxxView {
    /// The identifier under which the frame is kept.
    pub open spec fn identifier(self) -> Seq<char> {
        code_text(CODE_WXXX)
    }

    /// The text that the frame shows.
    pub open spec fn message(self) -> Seq<char> {
        self.data
    }

    /// The bytes that the frame keeps undecoded.
    pub open spec fn raw(self) -> Seq<u8> {
        Seq::empty()
    }
}

impl View for WXXX {
    type V = WxxxView;

    open spec fn view(&self) -> WxxxView {
        WxxxView {
            encoding: self.encoding,
            description: self.description@,
            data: self.data@,
        }
    }
}

impl WXXX {
    #[allow(non_snake_case)]
    pub fn new(
        encoding: Encoding,
        description: String,
        data: String,
    ) -> (frame: WXXX)
        ensures
            frame@ == (WxxxView {
                encoding,
                description: description@,
                data: data@,
            }),
    {
        WXXX {
            encoding,
            description,
            data,
        }
    }

    /// The identifier under which the frame is kept.
    pub fn identifier(&self) -> (text: String)
        ensures
            text@ == self@.identifier(),
    {
        code_to_text(CODE_WXXX)
    }

    /// The text that the frame shows.
    pub fn message(&self) -> (text: String)
        ensures
            text@ == self@.message(),
    {
        self.data.clone()
    }

    /// The bytes that the frame keeps undecoded.
    pub fn raw(&self) -> (bytes: Vec<u8>)
        ensures
            bytes@ == self@.raw(),
    {
        Vec::new()
    }
}

} // verus!
