//! What the standard library decodes for this crate: UTF-8, UTF-16 and case
//! mapping. The contracts in this file are believed, not proved.
use vstd::prelude::*;
use vstd::utf8::{decode_utf8, valid_utf8};

verus! {

/// The text that `String::from_utf16` decodes from `units`; `None` where it
/// reports invalid data.
pub uninterp spec fn utf16_text(units: Seq<u16>) -> Option<Seq<char>>;

/// The text that `str::to_uppercase` returns for `text`.
pub uninterp spec fn uppercase_of(text: Seq<char>) -> Seq<char>;

/// `String::push`: the string afterwards is the string before with the
/// character behind it.
pub assume_specification[ String::push ](s: &mut String, c: char)
    ensures
        final(s)@ == old(s)@.push(c),
;

/// `String::from_utf8`: succeeds exactly on well-formed UTF-8, and the string
/// then holds the characters that the bytes encode.
#[verifier::external_body]
pub(crate) fn utf8_to_string(bytes: Vec<u8>) -> (text: Option<String>)
    ensures
        text is Some <==> valid_utf8(bytes@),
        text matches Some(t) ==> t@ == decode_utf8(bytes@),
{
    String::from_utf8(bytes).ok()
}

/// `String::from_utf16`: the decoded string, or `None` where the units are no
/// valid UTF-16. The outcome depends on the units alone.
#[verifier::external_body]
pub(crate) fn utf16_to_string(units: &[u16]) -> (text: Option<String>)
    ensures
        match text {
            Some(t) => utf16_text(units@) == Some(t@),
            None => utf16_text(units@) is None,
        },
{
    String::from_utf16(units).ok()
}

/// `str::to_uppercase`: the upper-case form of `text`, which depends on the
/// characters alone.
#[verifier::external_body]
pub(crate) fn to_upper(text: &str) -> (upper: String)
    ensures
        upper@ == uppercase_of(text@),
{
    text.to_uppercase()
}

} // verus!
