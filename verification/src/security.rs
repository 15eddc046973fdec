//! Results of a security inspection.

use vstd::prelude::*;
use vstd::string::*;
use vstd::utf8::*;
use crate::backend::ensure_u32;
use crate::error::ErrorSlot;
use crate::text::{lossy_text_arg, utf8_text};

verus! {

/// The failure categories of an inspection.
#[derive(Copy, Clone, Debug, PartialEq, Eq, Structural)]
pub enum InspectErrorCode {
    DeserializeError,
    InvalidConfig,
    RequestError,
    BufferSizeError,
    Unexpected,
}

/// The verdict of an inspection.
#[derive(Copy, Clone, Debug, PartialEq, Eq, Structural)]
pub enum InspectVerdict {
    /// The request is allowed.
    Allow,
    /// The request should be blocked.
    Block,
    /// This service is not authorized to inspect a request.
    Unauthorized,
    /// A verdict this library does not know.
    Other,
}

/// What went wrong in an inspection, as the runtime tells it.
#[derive(Copy, Clone, Debug, PartialEq, Eq, Structural)]
pub enum InspectFailure {
    /// The answer of the security service could not be deserialized.
    DeserializeError,
    /// The answer of the security service was not valid UTF-8.
    InvalidBytes,
    /// The configuration of the inspection was not valid.
    InvalidConfig,
    /// The inspection completed without a verdict.
    NoVerdict,
    /// The request to the security service could not be sent.
    RequestError,
    /// The buffer, of the given size in bytes, was too small for the answer.
    BufferSizeError(usize),
    /// A failure this library has no variant for.
    Unrecognized,
}

/// The error object of an inspection: what went wrong, and the text that
/// describes it.
#[derive(Debug, PartialEq, Eq)]
pub struct InspectError {
    pub failure: InspectFailure,
    pub message: String,
}

impl InspectError {
    /// The code of each failure. The failures that have no code of their
    /// own read `Unexpected`.
    pub open spec fn code(&self) -> InspectErrorCode {
        match self.failure {
            InspectFailure::DeserializeError => InspectErrorCode::DeserializeError,
            InspectFailure::InvalidConfig => InspectErrorCode::InvalidConfig,
            InspectFailure::RequestError => InspectErrorCode::RequestError,
            InspectFailure::BufferSizeError(_) => InspectErrorCode::BufferSizeError,
            InspectFailure::InvalidBytes => InspectErrorCode::Unexpected,
            InspectFailure::NoVerdict => InspectErrorCode::Unexpected,
            InspectFailure::Unrecognized => InspectErrorCode::Unexpected,
        }
    }

    /// Appends the error's text to `out`.
    pub fn error_msg(&self, out: &mut String)
        ensures
            final(out)@ == old(out)@ + self.message@,
    {
        out.append(self.message.as_str());
    }

    /// The category of the error.
    pub fn error_code(&self) -> (code: InspectErrorCode)
        ensures
            code == self.code(),
    {
        match self.failure {
            InspectFailure::DeserializeError => InspectErrorCode::DeserializeError,
            InspectFailure::InvalidConfig => InspectErrorCode::InvalidConfig,
            InspectFailure::RequestError => InspectErrorCode::RequestError,
            InspectFailure::BufferSizeError(_) => InspectErrorCode::BufferSizeError,
            _ => InspectErrorCode::Unexpected,
        }
    }

    /// Writes the size the buffer had to `out` when the error says that it
    /// was too small, and returns `true`; for every other error writes
    /// nothing and returns `false`.
    pub fn required_buffer_size(&self, out: &mut usize) -> (present: bool)
        ensures
            present == (self.failure is BufferSizeError),
            self.failure matches InspectFailure::BufferSizeError(n) ==> *final(out) == n,
            !(self.failure is BufferSizeError) ==> *final(out) == *old(out),
    {
        match self.failure {
            InspectFailure::BufferSizeError(n) => {
                *out = n;
                true
            },
            _ => false,
        }
    }
}

/// The verdict of an inspection, with the runtime's own word for it where
/// this library has none.
#[derive(Debug, PartialEq, Eq)]
pub enum Verdict {
    Allow,
    Block,
    Unauthorized,
    Other(String),
}

impl Verdict {
    /// The verdict as a plain tag.
    pub fn verdict(&self) -> (tag: InspectVerdict)
        ensures
            self is Allow ==> tag == InspectVerdict::Allow,
            self is Block ==> tag == InspectVerdict::Block,
            self is Unauthorized ==> tag == InspectVerdict::Unauthorized,
            self is Other ==> tag == InspectVerdict::Other,
    {
        match self {
            Verdict::Allow => InspectVerdict::Allow,
            Verdict::Block => InspectVerdict::Block,
            Verdict::Unauthorized => InspectVerdict::Unauthorized,
            Verdict::Other(_) => InspectVerdict::Other,
        }
    }

    /// Appends the runtime's word for a verdict that has no tag of its own
    /// to `out`, and returns `true`; for the verdicts that have one appends
    /// nothing and returns `false`.
    pub fn unrecognized_verdict_info(&self, out: &mut String) -> (present: bool)
        ensures
            present == (self is Other),
            self matches Verdict::Other(word) ==> final(out)@ == old(out)@ + word@,
            !(self is Other) ==> final(out)@ == old(out)@,
    {
        match self {
            Verdict::Other(word) => {
                out.append(word.as_str());
                true
            },
            _ => false,
        }
    }
}

/// The time a decision took, in milliseconds, held to what 32 bits can
/// say.
pub fn decision_ms(millis: u128) -> (ms: u32)
    ensures
        millis <= u32::MAX ==> ms == millis,
        millis > u32::MAX ==> ms == u32::MAX,
{
    ensure_u32(millis)
}

/// The settings of an inspection, read from the arguments of a lookup.
/// Each is `None` where the caller passed a null pointer.
#[derive(Debug, PartialEq, Eq)]
pub struct InspectSettings<A> {
    pub client_ip: Option<A>,
    pub corp: Option<String>,
    pub workspace: Option<String>,
    pub buffer_size: Option<usize>,
}

/// The text of an optional argument that is read leniently.
pub open spec fn lenient_text(arg: Option<&[u8]>) -> Option<Seq<char>> {
    match arg {
        Some(bytes) => Some(crate::text::lossy_decoding(bytes@)),
        None => None,
    }
}

/// The view of an optional string.
pub open spec fn optional_text(text: Option<String>) -> Option<Seq<char>> {
    match text {
        Some(s) => Some(s@),
        None => None,
    }
}

/// Whether the client address of a lookup makes its configuration
/// invalid: an address was passed, and it is not UTF-8 or the address
/// parser read no address from its text.
pub open spec fn client_ip_rejected<A>(client_ip: Option<&[u8]>, parsed: Option<A>) -> bool {
    client_ip matches Some(bytes) && (!valid_utf8(bytes@) || parsed is None)
}

/// The text of the runtime's `InspectError::InvalidConfig`, as its
/// `Display` impl writes it: one fixed sentence.
#[verifier::external_body]
fn invalid_config_text() -> (text: String)
    ensures
        text@ == "Invalid Argument in Configuration"@,
{
    ::fastly::security::InspectError::InvalidConfig.to_string()
}

impl ErrorSlot<InspectError> {
    /// Whether the slot reports a configuration that is not valid.
    pub open spec fn rejects_config(&self) -> bool {
        self.error matches Some(e) && e.failure == InspectFailure::InvalidConfig && e.message@
            == "Invalid Argument in Configuration"@
    }
}

/// Reads the arguments of a lookup into the settings of the inspection.
///
/// `parsed` is what the address parser read from the text of `client_ip`.
/// A client address that is not UTF-8, or that the parser read no address
/// from, makes the configuration invalid: the slot reports `InvalidConfig`
/// and no settings are handed on. Otherwise the slot is cleared and the
/// settings hold the address, if one was passed. The corporation and the
/// workspace are read leniently: bytes that are not UTF-8 are replaced, not
/// rejected. An argument that is absent stays absent.
pub fn f_security_lookup<A>(
    client_ip: Option<&[u8]>,
    parsed: Option<A>,
    corp: Option<&[u8]>,
    workspace: Option<&[u8]>,
    buffer_size: Option<usize>,
    err: &mut ErrorSlot<InspectError>,
) -> (settings: Option<InspectSettings<A>>)
    ensures
        settings is None <==> client_ip_rejected(client_ip, parsed),
        final(err).null() <==> !client_ip_rejected(client_ip, parsed),
        client_ip_rejected(client_ip, parsed) ==> final(err).rejects_config(),
        settings matches Some(read) ==> {
            &&& client_ip is Some ==> read.client_ip == parsed
            &&& client_ip is None ==> read.client_ip is None
            &&& optional_text(read.corp) == lenient_text(corp)
            &&& optional_text(read.workspace) == lenient_text(workspace)
            &&& read.buffer_size == buffer_size
        },
{
    let address = match client_ip {
        Some(bytes) => {
            let accepted = match utf8_text(bytes) {
                Some(_) => parsed,
                None => None,
            };
            if accepted.is_none() {
                err.set_error(
                    InspectError {
                        failure: InspectFailure::InvalidConfig,
                        message: invalid_config_text(),
                    },
                );
                return None;
            }
            accepted
        },
        None => None,
    };
    err.set_null();
    let corp = match corp {
        Some(bytes) => Some(lossy_text_arg(bytes)),
        None => None,
    };
    let workspace = match workspace {
        Some(bytes) => Some(lossy_text_arg(bytes)),
        None => None,
    };
    Some(InspectSettings { client_ip: address, corp, workspace, buffer_size })
}

} // verus!
