//! The standard-library calls the library relies on without proving them:
//! UTF-8 decoding of captured output and the text of I/O errors.

use vstd::prelude::*;
use vstd::utf8::{decode_utf8, valid_utf8};

verus! {

#[verifier::external_type_specification]
#[verifier::external_body]
pub struct ExIoError(std::io::Error);

#[verifier::external_type_specification]
#[verifier::external_body]
pub struct ExFromUtf8Error(std::string::FromUtf8Error);

/// What `String::from_utf8_lossy` makes of `bytes`: the UTF-8 decoding,
/// with each invalid sequence replaced by U+FFFD.
pub uninterp spec fn utf8_lossy(bytes: Seq<u8>) -> Seq<char>;

/// `String::from_utf8(bytes)`. Its documentation: the bytes come back as a
/// `String` exactly when they are valid UTF-8; the string is their decoding.
#[verifier::external_body]
pub fn string_from_utf8(bytes: Vec<u8>) -> (r: Result<String, std::string::FromUtf8Error>)
    ensures
        r is Ok <==> valid_utf8(bytes@),
        r matches Ok(s) ==> s@ == decode_utf8(bytes@),
{
    String::from_utf8(bytes)
}

/// `String::from_utf8_lossy(bytes)`, owned. Its result is named
/// [`utf8_lossy`]; the documentation adds that valid UTF-8 comes back
/// unchanged, which is the second clause.
#[verifier::external_body]
pub fn string_from_utf8_lossy(bytes: &[u8]) -> (r: String)
    ensures
        r@ == utf8_lossy(bytes@),
        valid_utf8(bytes@) ==> r@ == decode_utf8(bytes@),
{
    String::from_utf8_lossy(bytes).into_owned()
}

/// The `Display` text of an I/O error (`format!("{}", e)`). The text comes
/// from the operating system's message for the error code, so nothing is
/// stated of it.
#[verifier::external_body]
pub fn io_error_text(e: &std::io::Error) -> String {
    format!("{}", e)
}

/// The `Display` text of a UTF-8 decoding error (`format!("{}", e)`).
/// Nothing is stated of the text: the error value is opaque here.
#[verifier::external_body]
pub fn utf8_error_text(e: &std::string::FromUtf8Error) -> String {
    format!("{}", e)
}

/// `std::io::Error::new(std::io::ErrorKind::TimedOut, msg)`.
#[verifier::external_body]
pub fn timed_out(msg: &str) -> std::io::Error {
    std::io::Error::new(std::io::ErrorKind::TimedOut, msg.to_owned())
}

} // verus!
