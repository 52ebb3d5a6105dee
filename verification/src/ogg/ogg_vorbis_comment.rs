use vstd::prelude::*;

use crate::registry::{text_entries, Entries, TagRegistry};

verus! {

/// The three header packets of a Vorbis stream.
#[derive(Clone, Copy, Debug, PartialEq, Eq, Structural)]
pub enum HeaderType {
    IdentifierHeader,
    CommentHeader,
    SetupHeader,
}

/// The comments of an Ogg Vorbis stream under their keys.
pub struct CommentBody {
    /// The values of each key, in the order of the packet. The keys are kept
    /// in upper case.
    pub tags: TagRegistry<String>,
}

impl View for CommentBody {
    type V = Entries<Seq<char>>;

    open spec fn view(&self) -> Entries<Seq<char>> {
        text_entries(self.tags@)
    }
}

impl CommentBody {
    /// The invariant of the comments: that of their registry.
    pub open spec fn wf(&self) -> bool {
        self.tags.wf()
    }
}

impl Default for CommentBody {
    fn default() -> (body: CommentBody)
        ensures
            body.wf(),
            body@ == Entries::<Seq<char>>::empty(),
    {
        let body = CommentBody { tags: TagRegistry::new() };
        assert(body@.lists =~= Seq::empty());
        body
    }
}

/// The comment header packet.
pub struct CommentHeader {
    pub header_type: HeaderType,
    /// The six characters behind the packet type, `vorbis`.
    pub packet_pattern: String,
    /// The vendor string of the encoder.
    pub company_info: String,
    pub comment_body: CommentBody,
    /// Whether the packet has been read to its end.
    pub end: bool,
}

/// What a comment header holds.
pub struct CommentView {
    pub header_type: HeaderType,
    pub packet_pattern: Seq<char>,
    pub company_info: Seq<char>,
    pub comment_body: Entries<Seq<char>>,
    pub end: bool,
}

impl View for CommentHeader {
    type V = CommentView;

    open spec fn view(&self) -> CommentView {
        CommentView {
            header_type: self.header_type,
            packet_pattern: self.packet_pattern@,
            company_info: self.company_info@,
            comment_body: self.comment_body@,
            end: self.end,
        }
    }
}

impl Default for CommentHeader {
    fn default() -> (header: CommentHeader)
        ensures
            header.comment_body.wf(),
            header@ == (CommentView {
                header_type: HeaderType::CommentHeader,
                packet_pattern: Seq::empty(),
                company_info: Seq::empty(),
                comment_body: Entries::empty(),
                end: false,
            }),
    {
        CommentHeader {
            header_type: HeaderType::CommentHeader,
            packet_pattern: String::new(),
            company_info: String::new(),
            comment_body: CommentBody::default(),
            end: false,
        }
    }
}

} // verus!
