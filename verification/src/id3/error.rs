use vstd::prelude::*;

verus! {

/// What a decoder found wrong with the bytes it was given.
#[derive(Clone, Copy, Debug, PartialEq, Eq, Structural)]
pub enum HeaderError {
    /// The encoding selector is none of 0, 1, 2, 3.
    UnknownEncoding,
    /// A text was to be decoded as UTF-16 with BOM before its byte order was
    /// settled.
    UnrefinedBom,
    /// The bytes are not valid text in the claimed encoding.
    MalformedText,
    /// The buffer ends before the field does.
    Truncated,
    /// The marker or the version of a tag header is not a known one.
    WrongHeader,
}

/// Outcome of reading one part of an ID3v2 tag, other than a decoded value.
#[derive(Clone, Copy, Debug, PartialEq, Eq, Structural)]
pub enum ID3Error {
    /// A frame whose identifier is outside the catalog: its four-byte code
    /// and its declared size.
    Unimplement(u32, u32),
    /// The all-zero identifier that starts the padding.
    IsPadding,
    /// The data is corrupt.
    UnknownError(HeaderError),
    /// The byte source ended, or could not be read, before the tag did.
    UnexpectedEnd,
}

/// The outcome of reading a frame, which is that of reading any part of a
/// tag.
pub type FrameError = ID3Error;

impl ID3Error {
    /// The error by which a decoding fault is reported from a tag.
    pub fn from(e: HeaderError) -> (r: ID3Error)
        ensures
            r == ID3Error::UnknownError(e),
    {
        ID3Error::UnknownError(e)
    }
}

} // verus!
