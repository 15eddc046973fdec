//! The error channel: error objects, their codes, and the slot every
//! fallible operation writes.

use vstd::prelude::*;
use vstd::string::*;

verus! {

/// The failure categories a caller can branch on. One code per variant of
/// [`FastlyError`]; the two are extended together.
#[derive(Copy, Clone, Debug, PartialEq, Eq, Structural)]
pub enum FastlyErrorCode {
    Utf8Error,
    InvalidHeaderName,
    InvalidHeaderValue,
    InvalidStatusCode,
    IoError,
    FastlyError,
    FastlySendError,
    AddrParseError,
    BackendError,
    BackendCreationError,
    FastlyStatus,
    ConfigStoreOpenError,
    ConfigStoreLookupError,
    SecretStoreOpenError,
    SecretStoreLookupError,
    LogError,
    ESIError,
}

/// A raw status of the runtime, kept by its numeric code.
#[derive(Copy, Clone, Debug, PartialEq, Eq, Structural)]
pub struct FastlyStatusWrapper(pub i32);

/// What the message of a status code says.
pub open spec fn status_message(code: int) -> Seq<char> {
    if code == 0 {
        "Ok"@
    } else if code == 1 {
        "Unexpected error"@
    } else if code == 2 {
        "Invalid argument"@
    } else if code == 3 {
        "Invalid handle"@
    } else if code == 4 {
        "Buffer is too long"@
    } else if code == 5 {
        "Unsupported operation"@
    } else if code == 6 {
        "Alignment error"@
    } else if code == 7 {
        "Invalid HTTP error"@
    } else if code == 8 {
        "HTTP user error"@
    } else if code == 9 {
        "HTTP incomplete message error"@
    } else if code == 10 {
        "Optional value did not exist"@
    } else if code == 11 {
        "HTTP head too large error. Aw yeah it's the big brain time"@
    } else if code == 12 {
        "HTTP invalid status error"@
    } else if code == 13 {
        "Limit exceeded"@
    } else if code == 14 {
        "Resource temporarily unavailable."@
    } else {
        "Unknown status code"@
    }
}

/// The fixed text for a runtime status; every code outside the known
/// range reads "Unknown status code".
pub fn fastly_status_message(status: &FastlyStatusWrapper) -> (text: &'static str)
    ensures
        text@ == status_message(status.0 as int),
{
    let code: i32 = status.0;
    if code == 0 {
        "Ok"
    } else if code == 1 {
        "Unexpected error"
    } else if code == 2 {
        "Invalid argument"
    } else if code == 3 {
        "Invalid handle"
    } else if code == 4 {
        "Buffer is too long"
    } else if code == 5 {
        "Unsupported operation"
    } else if code == 6 {
        "Alignment error"
    } else if code == 7 {
        "Invalid HTTP error"
    } else if code == 8 {
        "HTTP user error"
    } else if code == 9 {
        "HTTP incomplete message error"
    } else if code == 10 {
        "Optional value did not exist"
    } else if code == 11 {
        "HTTP head too large error. Aw yeah it's the big brain time"
    } else if code == 12 {
        "HTTP invalid status error"
    } else if code == 13 {
        "Limit exceeded"
    } else if code == 14 {
        "Resource temporarily unavailable."
    } else {
        "Unknown status code"
    }
}

/// An error object: a failure category and the text that describes it.
///
/// Each variant but `FastlyStatus` carries the message of the failure it
/// stands for, rendered where the failure was raised; `FastlyStatus` carries
/// the status itself and renders its message from the fixed table.
#[derive(Debug, PartialEq, Eq)]
pub enum FastlyError {
    Utf8Error(String),
    InvalidHeaderName(String),
    InvalidHeaderValue(String),
    InvalidStatusCode(String),
    IoError(String),
    FastlyError(String),
    FastlySendError(String),
    AddrParseError(String),
    BackendError(String),
    BackendCreationError(String),
    FastlyStatus(FastlyStatusWrapper),
    ConfigStoreOpenError(String),
    ConfigStoreLookupError(String),
    SecretStoreOpenError(String),
    SecretStoreLookupError(String),
    LogError(String),
    ESIError(String),
}

impl FastlyError {
    /// The code of each variant.
    pub open spec fn code(&self) -> FastlyErrorCode {
        match self {
            FastlyError::Utf8Error(_) => FastlyErrorCode::Utf8Error,
            FastlyError::InvalidHeaderName(_) => FastlyErrorCode::InvalidHeaderName,
            FastlyError::InvalidHeaderValue(_) => FastlyErrorCode::InvalidHeaderValue,
            FastlyError::InvalidStatusCode(_) => FastlyErrorCode::InvalidStatusCode,
            FastlyError::IoError(_) => FastlyErrorCode::IoError,
            FastlyError::FastlyError(_) => FastlyErrorCode::FastlyError,
            FastlyError::FastlySendError(_) => FastlyErrorCode::FastlySendError,
            FastlyError::AddrParseError(_) => FastlyErrorCode::AddrParseError,
            FastlyError::BackendError(_) => FastlyErrorCode::BackendError,
            FastlyError::BackendCreationError(_) => FastlyErrorCode::BackendCreationError,
            FastlyError::FastlyStatus(_) => FastlyErrorCode::FastlyStatus,
            FastlyError::ConfigStoreOpenError(_) => FastlyErrorCode::ConfigStoreOpenError,
            FastlyError::ConfigStoreLookupError(_) => FastlyErrorCode::ConfigStoreLookupError,
            FastlyError::SecretStoreOpenError(_) => FastlyErrorCode::SecretStoreOpenError,
            FastlyError::SecretStoreLookupError(_) => FastlyErrorCode::SecretStoreLookupError,
            FastlyError::LogError(_) => FastlyErrorCode::LogError,
            FastlyError::ESIError(_) => FastlyErrorCode::ESIError,
        }
    }

    /// The text of the error, as a caller reads it.
    pub open spec fn message(&self) -> Seq<char> {
        match self {
            FastlyError::Utf8Error(m) => m@,
            FastlyError::InvalidHeaderName(m) => m@,
            FastlyError::InvalidHeaderValue(m) => m@,
            FastlyError::InvalidStatusCode(m) => m@,
            FastlyError::IoError(m) => m@,
            FastlyError::FastlyError(m) => m@,
            FastlyError::FastlySendError(m) => m@,
            FastlyError::AddrParseError(m) => m@,
            FastlyError::BackendError(m) => m@,
            FastlyError::BackendCreationError(m) => m@,
            FastlyError::FastlyStatus(status) => "Fastly status error: "@ + status_message(
                status.0 as int,
            ),
            FastlyError::ConfigStoreOpenError(m) => m@,
            FastlyError::ConfigStoreLookupError(m) => m@,
            FastlyError::SecretStoreOpenError(m) => m@,
            FastlyError::SecretStoreLookupError(m) => m@,
            FastlyError::LogError(m) => m@,
            FastlyError::ESIError(m) => m@,
        }
    }

    /// Appends the error's text to `out`.
    pub fn error_msg(&self, out: &mut String)
        ensures
            final(out)@ == old(out)@ + self.message(),
    {
        match self {
            FastlyError::FastlyStatus(status) => {
                out.append("Fastly status error: ");
                out.append(fastly_status_message(status));
                assert(out@ == old(out)@ + ("Fastly status error: "@ + status_message(
                    status.0 as int,
                )));
            },
            FastlyError::Utf8Error(m)
            | FastlyError::InvalidHeaderName(m)
            | FastlyError::InvalidHeaderValue(m)
            | FastlyError::InvalidStatusCode(m)
            | FastlyError::IoError(m)
            | FastlyError::FastlyError(m)
            | FastlyError::FastlySendError(m)
            | FastlyError::AddrParseError(m)
            | FastlyError::BackendError(m)
            | FastlyError::BackendCreationError(m)
            | FastlyError::ConfigStoreOpenError(m)
            | FastlyError::ConfigStoreLookupError(m)
            | FastlyError::SecretStoreOpenError(m)
            | FastlyError::SecretStoreLookupError(m)
            | FastlyError::LogError(m)
            | FastlyError::ESIError(m) => {
                out.append(m.as_str());
            },
        }
    }

    /// The category of the error.
    pub fn error_code(&self) -> (code: FastlyErrorCode)
        ensures
            code == self.code(),
    {
        match self {
            FastlyError::Utf8Error(_) => FastlyErrorCode::Utf8Error,
            FastlyError::InvalidHeaderName(_) => FastlyErrorCode::InvalidHeaderName,
            FastlyError::InvalidHeaderValue(_) => FastlyErrorCode::InvalidHeaderValue,
            FastlyError::InvalidStatusCode(_) => FastlyErrorCode::InvalidStatusCode,
            FastlyError::IoError(_) => FastlyErrorCode::IoError,
            FastlyError::FastlyError(_) => FastlyErrorCode::FastlyError,
            FastlyError::FastlySendError(_) => FastlyErrorCode::FastlySendError,
            FastlyError::AddrParseError(_) => FastlyErrorCode::AddrParseError,
            FastlyError::BackendError(_) => FastlyErrorCode::BackendError,
            FastlyError::BackendCreationError(_) => FastlyErrorCode::BackendCreationError,
            FastlyError::FastlyStatus(_) => FastlyErrorCode::FastlyStatus,
            FastlyError::ConfigStoreOpenError(_) => FastlyErrorCode::ConfigStoreOpenError,
            FastlyError::ConfigStoreLookupError(_) => FastlyErrorCode::ConfigStoreLookupError,
            FastlyError::SecretStoreOpenError(_) => FastlyErrorCode::SecretStoreOpenError,
            FastlyError::SecretStoreLookupError(_) => FastlyErrorCode::SecretStoreLookupError,
            FastlyError::LogError(_) => FastlyErrorCode::LogError,
            FastlyError::ESIError(_) => FastlyErrorCode::ESIError,
        }
    }
}

/// An error of each category, for the proof that none is missing.
pub open spec fn error_of(code: FastlyErrorCode, message: String) -> FastlyError {
    match code {
        FastlyErrorCode::Utf8Error => FastlyError::Utf8Error(message),
        FastlyErrorCode::InvalidHeaderName => FastlyError::InvalidHeaderName(message),
        FastlyErrorCode::InvalidHeaderValue => FastlyError::InvalidHeaderValue(message),
        FastlyErrorCode::InvalidStatusCode => FastlyError::InvalidStatusCode(message),
        FastlyErrorCode::IoError => FastlyError::IoError(message),
        FastlyErrorCode::FastlyError => FastlyError::FastlyError(message),
        FastlyErrorCode::FastlySendError => FastlyError::FastlySendError(message),
        FastlyErrorCode::AddrParseError => FastlyError::AddrParseError(message),
        FastlyErrorCode::BackendError => FastlyError::BackendError(message),
        FastlyErrorCode::BackendCreationError => FastlyError::BackendCreationError(message),
        FastlyErrorCode::FastlyStatus => FastlyError::FastlyStatus(FastlyStatusWrapper(1)),
        FastlyErrorCode::ConfigStoreOpenError => FastlyError::ConfigStoreOpenError(message),
        FastlyErrorCode::ConfigStoreLookupError => FastlyError::ConfigStoreLookupError(message),
        FastlyErrorCode::SecretStoreOpenError => FastlyError::SecretStoreOpenError(message),
        FastlyErrorCode::SecretStoreLookupError => FastlyError::SecretStoreLookupError(message),
        FastlyErrorCode::LogError => FastlyError::LogError(message),
        FastlyErrorCode::ESIError => FastlyError::ESIError(message),
    }
}

/// The codes and the error objects go together: every code is the code of
/// an error object.
pub proof fn lemma_codes_and_errors_pair_up(code: FastlyErrorCode, message: String)
    ensures
        error_of(code, message).code() == code,
        exists|e: FastlyError| e.code() == code,
{
    assert(error_of(code, message).code() == code);
}

/// The output location of a fallible operation: empty after a success, an
/// owned error object after a failure.
///
/// An operation never reads what the slot held before; whatever it writes
/// replaces it.
#[derive(Debug)]
pub struct ErrorSlot<E> {
    pub error: Option<Box<E>>,
}

impl<E> ErrorSlot<E> {
    /// Whether the slot reports success.
    pub open spec fn null(&self) -> bool {
        self.error is None
    }

    /// Whether the slot holds exactly the error `e`.
    pub open spec fn holds(&self, e: E) -> bool {
        self.error == Some(Box::new(e))
    }

    /// An empty slot.
    pub fn new() -> (slot: Self)
        ensures
            slot.null(),
    {
        ErrorSlot { error: None }
    }

    /// Whether the slot reports success.
    pub fn is_null(&self) -> (b: bool)
        ensures
            b == self.null(),
    {
        self.error.is_none()
    }

    /// Writes success, dropping any error that was left in the slot.
    pub fn set_null(&mut self)
        ensures
            final(self).null(),
    {
        self.error = None;
    }

    /// Writes a failure, dropping any error that was left in the slot.
    pub fn set_error(&mut self, e: E)
        ensures
            final(self).holds(e),
    {
        self.error = Some(Box::new(e));
    }

    /// Moves the error object out to the caller, who now owns it; the slot
    /// is left empty.
    pub fn take(&mut self) -> (e: Option<Box<E>>)
        ensures
            e == old(self).error,
            final(self).null(),
    {
        self.error.take()
    }
}

impl ErrorSlot<FastlyError> {
    /// Whether the slot holds an error of the category `code`.
    pub open spec fn reports(&self, code: FastlyErrorCode) -> bool {
        self.error matches Some(e) && e.code() == code
    }

    /// Whether the slot holds an error of the category `code` that reads
    /// `message`.
    pub open spec fn reports_text(&self, code: FastlyErrorCode, message: Seq<char>) -> bool {
        self.error matches Some(e) && e.code() == code && e.message() == message
    }
}

/// What a fallible step puts on the two channels: the value that is handed
/// on, and the error object that is left in the slot.
pub open spec fn channels<T, E>(x: Result<T, E>) -> (Option<T>, Option<Box<E>>) {
    match x {
        Ok(v) => (Some(v), None),
        Err(e) => (None, Some(Box::new(e))),
    }
}

/// Exactly one channel speaks: the slot is empty if and only if a value is
/// handed on, whatever the outcome of the step.
pub proof fn lemma_one_channel_speaks<T, E>(x: Result<T, E>)
    ensures
        channels(x).1 is None <==> channels(x).0 is Some,
        channels(x).1 is None <==> x is Ok,
        x matches Ok(v) ==> channels(x).0 == Some(v),
        x matches Err(e) ==> channels(x).1 == Some(Box::new(e)),
{
}

/// Reports the outcome of a fallible step on the error channel.
///
/// A success clears the slot and hands the value on. A failure stores the
/// error in the slot and hands nothing on: the operation then returns the
/// sentinel of its own return type.
pub fn try_fe<T, E>(err: &mut ErrorSlot<E>, x: Result<T, E>) -> (value: Option<T>)
    ensures
        (value, final(err).error) == channels(x),
        final(err).null() <==> x is Ok,
        value is Some <==> x is Ok,
        x matches Ok(v) ==> value == Some(v),
        x matches Err(e) ==> final(err).holds(e),
{
    match x {
        Ok(v) => {
            err.set_null();
            Some(v)
        },
        Err(e) => {
            err.set_error(e);
            None
        },
    }
}

} // verus!
