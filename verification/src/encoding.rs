//! Bytes as text, the way the standard library reads and quotes them.
use vstd::prelude::*;
use vstd::utf8::{decode_utf8, valid_utf8};

verus! {

/// The message of [`std::str::Utf8Error`] on bytes that are not UTF-8.
pub uninterp spec fn utf8_problem(bytes: Seq<u8>) -> Seq<char>;

/// The text of bytes that may not be UTF-8, with a replacement character for
/// what cannot be read.
pub uninterp spec fn lossy(bytes: Seq<u8>) -> Seq<char>;

/// A text in quotes and with its special characters escaped, as `{:?}` writes
/// it.
pub uninterp spec fn quoted(text: Seq<char>) -> Seq<char>;

/// The text of bytes: exactly what they encode where they are UTF-8.
pub open spec fn lossy_text(bytes: Seq<u8>) -> Seq<char> {
    if valid_utf8(bytes) {
        decode_utf8(bytes)
    } else {
        lossy(bytes)
    }
}

/// Calls [`std::str::from_utf8`]: bytes that are valid UTF-8 give the text they
/// encode, other bytes the message of the error. What the message says of given
/// bytes is left open.
#[verifier::external_body]
pub(crate) fn read_utf8(bytes: &[u8]) -> (text: Result<String, String>)
    ensures
        match text {
            Ok(text) => valid_utf8(bytes@) && text@ == decode_utf8(bytes@),
            Err(message) => !valid_utf8(bytes@) && message@ == utf8_problem(bytes@),
        },
{
    match std::str::from_utf8(bytes) {
        Ok(text) => Ok(text.to_string()),
        Err(error) => Err(error.to_string()),
    }
}

/// Calls [`String::from_utf8_lossy`]: bytes that are valid UTF-8 give the text
/// they encode. What replaces invalid bytes is left open.
#[verifier::external_body]
pub(crate) fn read_lossy(bytes: &[u8]) -> (text: String)
    ensures
        text@ == lossy(bytes@),
        valid_utf8(bytes@) ==> text@ == decode_utf8(bytes@),
{
    String::from_utf8_lossy(bytes).into_owned()
}

/// Formats a text with the `Debug` of `str`. The result is named and not
/// described further.
#[verifier::external_body]
pub(crate) fn quote(text: &str) -> (quote: String)
    ensures
        quote@ == quoted(text@),
{
    format!("{:?}", text)
}

} // verus!
