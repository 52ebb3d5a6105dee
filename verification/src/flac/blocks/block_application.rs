use vstd::prelude::*;

verus! {

/// An application block: the registered id of the application and its data.
#[derive(Debug)]
pub struct BlockApplication {
    pub id: u32,
    pub data: Vec<u8>,
}

/// What an application block holds.
pub struct ApplicationView {
    pub id: u32,
    pub data: Seq<u8>,
}

impl ApplicationView {
    /// The block of a parser that has read none.
    pub open spec fn spec_default() -> ApplicationView {
        ApplicationView { id: 0, data: Seq::empty() }
    }
}

impl View for BlockApplication {
    type V = ApplicationView;

    open spec fn view(&self) -> ApplicationView {
        ApplicationView { id: self.id, data: self.data@ }
    }
}

impl BlockApplication {
    pub fn new(id: u32, data: Vec<u8>) -> (block: BlockApplication)
        ensures
            block@ == (ApplicationView { id, data: data@ }),
    {
        BlockApplication { id, data }
    }
}

impl Default for BlockApplication {
    fn default() -> (block: BlockApplication)
        ensures
            block@ == ApplicationView::spec_default(),
    {
        BlockApplication { id: 0, data: Vec::new() }
    }
}

} // verus!
