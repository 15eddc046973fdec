//! HTTP values as they cross the boundary.

use vstd::prelude::*;
use vstd::utf8::*;
use crate::text::utf8_text;

pub mod header;
pub mod request;
pub mod status_code;

verus! {

/// The request methods the boundary knows.
#[allow(clippy::upper_case_acronyms)]
#[derive(Copy, Clone, Debug, PartialEq, Eq, Structural)]
pub enum Method {
    GET,
    POST,
    PUT,
    DELETE,
    HEAD,
    OPTIONS,
    CONNECT,
    PATCH,
    TRACE,
}

/// The protocol versions the boundary knows.
#[allow(non_camel_case_types)]
#[derive(Copy, Clone, Debug, PartialEq, Eq, Structural)]
pub enum Version {
    HTTP_09,
    HTTP_10,
    HTTP_11,
    HTTP_2,
    HTTP_3,
}

/// `mime::Mime`, as the `fastly` crate hands it on: a parsed media type,
/// carried through as it is.
#[verifier::external_type_specification]
#[verifier::external_body]
pub struct ExMime(::fastly::mime::Mime);

/// Whether the parser of media types accepts a text.
pub uninterp spec fn mime_accepted(text: Seq<char>) -> bool;

/// `str::parse` into a media type, which is `Mime::from_str`: the media
/// type when the parser accepts the text, nothing when it does not.
#[verifier::external_body]
fn parse_mime(text: &str) -> (parsed: Option<::fastly::mime::Mime>)
    ensures
        parsed is Some <==> mime_accepted(text@),
{
    text.parse::<::fastly::mime::Mime>().ok()
}

/// Why a content-type argument cannot be used.
#[derive(Copy, Clone, Debug, PartialEq, Eq, Structural)]
pub enum ContentTypeFault {
    /// The argument is not UTF-8.
    InvalidUtf8,
    /// The argument is text, and no media type.
    InvalidMime,
}

/// Reads a content-type argument: the media type when the bytes are UTF-8
/// and the parser of media types accepts their text, else the reason why
/// not, the encoding being looked at first.
pub fn content_type_arg(mime: &[u8]) -> (parsed: Result<::fastly::mime::Mime, ContentTypeFault>)
    ensures
        parsed is Ok <==> valid_utf8(mime@) && mime_accepted(decode_utf8(mime@)),
        !valid_utf8(mime@) ==> parsed == Err::<::fastly::mime::Mime, ContentTypeFault>(
            ContentTypeFault::InvalidUtf8,
        ),
        valid_utf8(mime@) && !mime_accepted(decode_utf8(mime@)) ==> parsed == Err::<
            ::fastly::mime::Mime,
            ContentTypeFault,
        >(ContentTypeFault::InvalidMime),
{
    match utf8_text(mime) {
        Some(text) => match parse_mime(text) {
            Some(parsed) => Ok(parsed),
            None => Err(ContentTypeFault::InvalidMime),
        },
        None => Err(ContentTypeFault::InvalidUtf8),
    }
}

} // verus!
