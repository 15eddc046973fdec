//! Reason phrases of status codes.

use vstd::prelude::*;
use vstd::string::*;
use crate::error::{ErrorSlot, FastlyError, FastlyErrorCode};

verus! {

/// `http::status::InvalidStatusCode`: the error of a rejected status code.
#[verifier::external_type_specification]
#[verifier::external_body]
pub struct ExInvalidStatusCode(::http::status::InvalidStatusCode);

/// The numbers that are status codes: three decimal digits, the first not
/// zero.
pub open spec fn is_status_code(code: u16) -> bool {
    100 <= code <= 999
}

/// The reason phrase that `StatusCode::canonical_reason` gives for a status
/// code, if it has one for it.
pub uninterp spec fn canonical_reason_of(code: u16) -> Option<Seq<char>>;

/// The view of an optional string slice.
pub open spec fn text_of(text: Option<&'static str>) -> Option<Seq<char>> {
    match text {
        Some(s) => Some(s@),
        None => None,
    }
}

/// `StatusCode::from_u16` and, on the status it gives,
/// `StatusCode::canonical_reason`. The first accepts the numbers from 100
/// to 999 and no other; the second looks the number up in the crate's table
/// of registered codes.
#[verifier::external_body]
fn canonical_reason(code: u16) -> (reason: Result<Option<&'static str>, ::http::status::InvalidStatusCode>)
    ensures
        reason is Ok <==> is_status_code(code),
        reason matches Ok(phrase) ==> text_of(phrase) == canonical_reason_of(code),
{
    match ::http::StatusCode::from_u16(code) {
        Ok(status) => Ok(status.canonical_reason()),
        Err(error) => Err(error),
    }
}

/// The text of a rejected status code, as its `Display` impl writes it: one
/// fixed sentence.
#[verifier::external_body]
fn invalid_status_code_text(error: &::http::status::InvalidStatusCode) -> (text:
    String)
    ensures
        text@ == "invalid status code"@,
{
    error.to_string()
}

/// What [`f_http_status_code_canonical_reason`] appends and returns, given
/// what the table holds for the code.
pub open spec fn reason_reported(
    phrase: Option<Seq<char>>,
    before: Seq<char>,
    after: Seq<char>,
    found: bool,
) -> bool {
    match phrase {
        Some(text) => found && after == before + text,
        None => !found && after == before,
    }
}

/// Appends the reason phrase of a status code to `string`.
///
/// A number that is no status code leaves an `InvalidStatusCode` error in
/// the slot, appends nothing and returns `false`. A status code clears the
/// slot; its phrase is appended and `true` returned when it has one, and
/// nothing is appended and `false` returned when it has none.
pub fn f_http_status_code_canonical_reason(
    code: u16,
    string: &mut String,
    err: &mut ErrorSlot<FastlyError>,
) -> (found: bool)
    ensures
        final(err).null() <==> is_status_code(code),
        is_status_code(code) ==> reason_reported(
            canonical_reason_of(code),
            old(string)@,
            final(string)@,
            found,
        ),
        !is_status_code(code) ==> !found && final(string)@ == old(string)@,
        !is_status_code(code) ==> final(err).reports_text(
            FastlyErrorCode::InvalidStatusCode,
            "invalid status code"@,
        ),
{
    match canonical_reason(code) {
        Ok(phrase) => {
            err.set_null();
            match phrase {
                Some(text) => {
                    string.append(text);
                    true
                },
                None => false,
            }
        },
        Err(e) => {
            err.set_error(FastlyError::InvalidStatusCode(invalid_status_code_text(&e)));
            false
        },
    }
}

} // verus!
