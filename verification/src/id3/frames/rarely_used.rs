use vstd::prelude::*;

use crate::util::copy_range;

verus! {

/// A frame whose payload is kept without decoding.
#[allow(non_snake_case)]
#[derive(Debug)]
pub struct RarelyUsed {
    pub identifier: String,
    pub payload: Vec<u8>,
}

/// What a value of `RarelyUsed` holds.
#[allow(non_snake_case)]
pub struct RarelyUsedView {
    pub identifier: Seq<char>,
    pub payload: Seq<u8>,
}

impl RarelyUsedView {
    /// The identifier under which the frame is kept.
    pub open spec fn identifier(self) -> Seq<char> {
        self.identifier
    }

    /// The text that the frame shows.
    pub open spec fn message(self) -> Seq<char> {
        "null"@
    }

    /// The bytes that the frame keeps undecoded.
    pub open spec fn raw(self) -> Seq<u8> {
        self.payload
    }
}

impl View for RarelyUsed {
    type V = RarelyUsedView;

    open spec fn view(&self) -> RarelyUsedView {
        RarelyUsedView {
            identifier: self.identifier@,
            payload: self.payload@,
        }
    }
}

impl RarelyUsed {
    #[allow(non_snake_case)]
    pub fn new(
        identifier: String,
        payload: Vec<u8>,
    ) -> (frame: RarelyUsed)
        ensures
            frame@ == (RarelyUsedView {
                identifier: identifier@,
                payload: payload@,
            }),
    {
        RarelyUsed {
            identifier,
            payload,
        }
    }

    /// The identifier under which the frame is kept.
    pub fn identifier(&self) -> (text: String)
        ensures
            text@ == self@.identifier(),
    {
        self.identifier.clone()
    }

    /// The text that the frame shows.
    pub fn message(&self) -> (text: String)
        ensures
            text@ == self@.message(),
    {
        "null".to_owned()
    }

    /// The bytes that the frame keeps undecoded.
    pub fn raw(&self) -> (bytes: Vec<u8>)
        ensures
            bytes@ == self@.raw(),
    {
        copy_range(self.payload.as_slice(), 0, self.payload.len())
    }
}

} // verus!
