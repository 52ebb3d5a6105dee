use vstd::prelude::*;

use crate::id3::frames::common::Encoding;
use crate::id3::frames::identifiers::{CODE_COMM, code_text, code_to_text};

verus! {

/// A comment.
#[allow(non_snake_case)]
#[derive(Debug)]
pub struct COMM {
    pub identifier: String,
    pub encoding: Encoding,
    pub language: String,
    pub description: String,
    pub data: String,
}

/// What a value of `COMM` holds.
#[allow(non_snake_case)]
pub struct CommView {
    pub identifier: Seq<char>,
    pub encoding: Encoding,
    pub language: Seq<char>,
    pub description: Seq<char>,
    pub data: Seq<char>,
}

impl CommView {
    /// The identifier under which the frame is kept.
    pub open spec fn identifier(self) -> Seq<char> {
        self.identifier
    }

    /// The text that the frame shows.
    pub open spec fn message(self) -> Seq<char> {
        self.data
    }

    /// The bytes that the frame keeps undecoded.
    pub open spec fn raw(self) -> Seq<u8> {
        Seq::empty()
    }
}

impl View for COMM {
    type V = CommView;

    open spec fn view(&self) -> CommView {
        CommView {
            identifier: self.identifier@,
            encoding: self.encoding,
            language: self.language@,
            description: self.description@,
            data: self.data@,
        }
    }
}

impl COMM {
    #[allow(non_snake_case)]
    pub fn new(
        encoding: Encoding,
        language: String,
        description: String,
        data: String,
    ) -> (frame: COMM)
        ensures
            frame@ == (CommView {
                identifier: code_text(CODE_COMM),
                encoding,
                language: language@,
                description: description@,
                data: data@,
            }),
    {
        COMM {
            identifier: code_to_text(CODE_COMM),
            encoding,
            language,
            description,
            data,
        }
    }

    /// The identifier under which the frame is kept.
    pub fn identifier(&self) -> (text: String)
        ensures
            text@ == self@.identifier(),
    {
        self.identifier.clone()
    }

    /// The text that the frame shows.
    pub fn message(&self) -> (text: String)
        ensures
            text@ == self@.message(),
    {
        self.data.clone()
    }

    /// The bytes that the frame keeps undecoded.
    pub fn raw(&self) -> (bytes: Vec<u8>)
        ensures
            bytes@ == self@.raw(),
    {
        Vec::new()
    }
}

} // verus!
