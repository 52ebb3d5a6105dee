use vstd::prelude::*;

use crate::registry::{text_entries, Entries, TagRegistry};

verus! {

/// A Vorbis comment: the vendor string of the encoder, and the tags under
/// their keys.
pub struct BlockVorbisComment {
    pub encoder: String,
    /// The values of each key, in the order of the block. The keys are kept
    /// in upper case.
    pub tags: TagRegistry<String>,
}

/// What a Vorbis comment holds.
pub struct VorbisView {
    pub encoder: Seq<char>,
    pub entries: Entries<Seq<char>>,
}

impl VorbisView {
    /// The comment of a parser that has read none.
    pub open spec fn spec_default() -> VorbisView {
        VorbisView { encoder: Seq::empty(), entries: Entries::empty() }
    }
}

impl View for BlockVorbisComment {
    type V = VorbisView;

    open spec fn view(&self) -> VorbisView {
        VorbisView { encoder: self.encoder@, entries: text_entries(self.tags@) }
    }
}

impl BlockVorbisComment {
    /// The invariant of the comment: that of its registry.
    pub open spec fn wf(&self) -> bool {
        self.tags.wf()
    }
}

impl Default for BlockVorbisComment {
    fn default() -> (block: BlockVorbisComment)
        ensures
            block.wf(),
            block@ == VorbisView::spec_default(),
    {
        let block = BlockVorbisComment { encoder: String::new(), tags: TagRegistry::new() };
        assert(block@.entries.lists =~= Seq::empty());
        block
    }
}

} // verus!
