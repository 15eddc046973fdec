//! Text and bytes as they cross the boundary.
//!
//! The foreign side passes strings as bytes that need not be UTF-8, and
//! receives strings and byte vectors by having them appended to a buffer
//! that it owns.

use vstd::prelude::*;
use vstd::string::*;
use vstd::utf8::*;
use core::str::Utf8Error;
use crate::error::{ErrorSlot, FastlyError, FastlyErrorCode};

verus! {

/// `core::str::Utf8Error`: the error of bytes that are not UTF-8.
#[verifier::external_type_specification]
#[verifier::external_body]
pub struct ExUtf8Error(Utf8Error);

/// `core::str::from_utf8`: the bytes as a string slice when they are valid
/// UTF-8, and an error when they are not. The slice borrows the same bytes.
#[verifier::external_body]
fn from_utf8(bytes: &[u8]) -> (checked: Result<&str, Utf8Error>)
    ensures
        checked is Ok <==> valid_utf8(bytes@),
        checked matches Ok(text) ==> text.spec_bytes() == bytes@,
{
    core::str::from_utf8(bytes)
}

/// The text of a UTF-8 error, as its `Display` impl writes it. The text
/// names the place of the first invalid byte; nothing is stated of it here.
#[verifier::external_body]
fn utf8_error_text(error: &Utf8Error) -> String {
    error.to_string()
}

/// What `String::from_utf8_lossy` makes of a byte string: its text, with
/// each invalid sequence replaced by U+FFFD.
pub uninterp spec fn lossy_decoding(bytes: Seq<u8>) -> Seq<char>;

/// `String::from_utf8_lossy`, as an owned string. Valid UTF-8 is decoded as
/// it stands.
#[verifier::external_body]
fn from_utf8_lossy(bytes: &[u8]) -> (text: String)
    ensures
        text@ == lossy_decoding(bytes@),
        valid_utf8(bytes@) ==> text@ == decode_utf8(bytes@),
{
    String::from_utf8_lossy(bytes).into_owned()
}

/// The text of a byte string that is valid UTF-8, and nothing for one that
/// is not.
pub fn utf8_text<'a>(bytes: &'a [u8]) -> (text: Option<&'a str>)
    ensures
        text is Some <==> valid_utf8(bytes@),
        text matches Some(s) ==> s@ == decode_utf8(bytes@) && s.spec_bytes() == bytes@,
{
    match from_utf8(bytes) {
        Ok(s) => {
            proof {
                encode_utf8_decode_utf8(s@);
            }
            Some(s)
        },
        Err(_) => None,
    }
}

/// Reads a text argument that must be UTF-8.
///
/// Valid bytes give their text and clear the slot. Invalid bytes give
/// nothing and leave a `Utf8Error` in the slot.
pub fn text_arg<'a>(bytes: &'a [u8], err: &mut ErrorSlot<FastlyError>) -> (text: Option<&'a str>)
    ensures
        text is Some <==> valid_utf8(bytes@),
        final(err).null() <==> valid_utf8(bytes@),
        text matches Some(s) ==> s@ == decode_utf8(bytes@) && s.spec_bytes() == bytes@,
        !valid_utf8(bytes@) ==> final(err).reports(FastlyErrorCode::Utf8Error),
{
    match from_utf8(bytes) {
        Ok(s) => {
            proof {
                encode_utf8_decode_utf8(s@);
            }
            err.set_null();
            Some(s)
        },
        Err(e) => {
            err.set_error(FastlyError::Utf8Error(utf8_error_text(&e)));
            None
        },
    }
}

/// Reads a text argument that may hold anything: bytes that are not UTF-8
/// are replaced, never rejected.
pub fn lossy_text_arg(bytes: &[u8]) -> (text: String)
    ensures
        text@ == lossy_decoding(bytes@),
        valid_utf8(bytes@) ==> text@ == decode_utf8(bytes@),
{
    from_utf8_lossy(bytes)
}

/// Appends the text to `out` when there is one, and leaves `out` as it was
/// when there is none. Returns whether there was one.
pub fn push_optional_text(out: &mut String, text: Option<&str>) -> (present: bool)
    ensures
        present == (text is Some),
        text is None ==> final(out)@ == old(out)@,
        text matches Some(s) ==> final(out)@ == old(out)@ + s@,
{
    match text {
        Some(s) => {
            out.append(s);
            true
        },
        None => false,
    }
}

/// Appends the bytes to `out` when there are any to report, and leaves
/// `out` as it was when there are none. Returns whether there were.
pub fn push_optional_bytes(out: &mut Vec<u8>, bytes: Option<&[u8]>) -> (present: bool)
    ensures
        present == (bytes is Some),
        bytes is None ==> final(out)@ == old(out)@,
        bytes matches Some(b) ==> final(out)@ == old(out)@ + b@,
{
    match bytes {
        Some(b) => {
            crate::http::header::push_bytes(out, b);
            true
        },
        None => false,
    }
}

} // verus!
