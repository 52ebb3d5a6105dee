use vstd::prelude::*;

verus! {

/// What can be wrong with the metadata of a FLAC file.
#[derive(Clone, Copy, Debug, PartialEq, Eq, Structural)]
pub enum FlacError {
    /// The file does not start with the marker `fLaC`.
    WrongHeader,
    /// A block is shorter than the fields that it has to hold.
    Truncated,
    /// A text is not valid UTF-8.
    MalformedText,
    /// A comment has no `=` between key and value.
    MalformedComment,
    /// The byte source ended, or could not be read, before the metadata did.
    UnexpectedEnd,
}

} // verus!
