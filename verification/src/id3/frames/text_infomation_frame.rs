use vstd::prelude::*;

verus! {

/// A text information frame.
#[allow(non_snake_case)]
#[derive(Debug)]
pub struct TextInfomationFrame {
    pub identifier: String,
    pub data: String,
}

/// What a value of `TextInfomationFrame` holds.
#[allow(non_snake_case)]
pub struct TextView {
    pub identifier: Seq<char>,
    pub data: Seq<char>,
}

impl TextView {
    /// The identifier under which the frame is kept.
    pub open spec fn identifier(self) -> Seq<char> {
        self.identifier
    }

    /// The text that the frame shows.
    pub open spec fn message(self) -> Seq<char> {
        self.data
    }

    /// The bytes that the frame keeps undecoded.
    pub open spec fn raw(self) -> Seq<u8> {
        Seq::empty()
    }
}

impl View for TextInfomationFrame {
    type V = TextView;

    open spec fn view(&self) -> TextView {
        TextView {
            identifier: self.identifier@,
            data: self.data@,
        }
    }
}

impl TextInfomationFrame {
    #[allow(non_snake_case)]
    pub fn new(
        identifier: String,
        data: String,
    ) -> (frame: TextInfomationFrame)
        ensures
            frame@ == (TextView {
                identifier: identifier@,
                data: data@,
            }),
    {
        TextInfomationFrame {
            identifier,
            data,
        }
    }

    /// The identifier under which the frame is kept.
    pub fn identifier(&self) -> (text: String)
        ensures
            text@ == self@.identifier(),
    {
        self.identifier.clone()
    }

    /// The text that the frame shows.
    pub fn message(&self) -> (text: String)
        ensures
            text@ == self@.message(),
    {
        self.data.clone()
    }

    /// The bytes that the frame keeps undecoded.
    pub fn raw(&self) -> (bytes: Vec<u8>)
        ensures
            bytes@ == self@.raw(),
    {
        Vec::new()
    }
}

} // verus!
