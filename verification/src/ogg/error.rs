use vstd::prelude::*;

use crate::flac::error::FlacError;

verus! {

/// What can be wrong with the pages of an Ogg stream.
#[derive(Clone, Copy, Debug, PartialEq, Eq, Structural)]
pub enum OggError {
    /// The byte source ended, or could not be read, before the comment
    /// packet did.
    UnexpectedEnd,
    /// The first packet of a page with content is empty, so that the page
    /// has no byte for the packet type.
    MalformedPage,
    /// The comment packet does not decode.
    Comment(FlacError),
}

} // verus!
