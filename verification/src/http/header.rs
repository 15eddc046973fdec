//! Cursors over header names and values.
//!
//! A cursor is the pull-based, forward-only form in which a sequence of
//! owned elements crosses the boundary: each call of `next` either hands
//! out the element at the front or reports that none is left. The view of a
//! cursor is the sequence of elements it has still to hand out.

use vstd::prelude::*;
use vstd::string::*;
use vstd::utf8::*;
use crate::error::{ErrorSlot, FastlyError, FastlyErrorCode};

verus! {

/// What one call of `next` does to the elements a cursor has left: `None`
/// and the same (empty) sequence when it is exhausted, else the front
/// element and the rest.
pub open spec fn cursor_step<T>(left: Seq<T>) -> (Option<T>, Seq<T>) {
    if left.len() == 0 {
        (None, left)
    } else {
        (Some(left[0]), left.drop_first())
    }
}

/// What is left after `calls` calls of `next`.
pub open spec fn cursor_after<T>(left: Seq<T>, calls: nat) -> Seq<T>
    decreases calls,
{
    if calls == 0 {
        left
    } else {
        cursor_after(cursor_step(left).1, (calls - 1) as nat)
    }
}

/// A cursor over a finite source hands out its elements in order, one per
/// call, reports exhaustion at the call after the last element, and
/// reports exhaustion at every call after that.
pub proof fn lemma_cursor_terminates<T>(left: Seq<T>, calls: nat)
    ensures
        calls < left.len() ==> cursor_step(cursor_after(left, calls)).0 == Some(
            left[calls as int],
        ),
        calls >= left.len() ==> cursor_step(cursor_after(left, calls)).0 is None,
        calls <= left.len() ==> cursor_after(left, calls) == left.skip(calls as int),
        calls >= left.len() ==> cursor_after(left, calls).len() == 0,
    decreases calls,
{
    if calls > 0 {
        let rest = cursor_step(left).1;
        lemma_cursor_terminates(rest, (calls - 1) as nat);
        if left.len() > 0 {
            assert(rest == left.drop_first());
            if calls <= left.len() {
                assert(rest.skip(calls - 1) =~= left.skip(calls as int));
            }
        }
    } else {
        assert(left.skip(0) =~= left);
    }
}

/// A forward-only cursor over a finite sequence of elements.
pub struct LazySequenceCursor<T> {
    items: Vec<T>,
    pos: usize,
}

impl<T> View for LazySequenceCursor<T> {
    type V = Seq<T>;

    closed spec fn view(&self) -> Seq<T> {
        self.items@.skip(self.pos as int)
    }
}

impl<T> LazySequenceCursor<T> {
    #[verifier::type_invariant]
    spec fn in_bounds(&self) -> bool {
        self.pos <= self.items.len()
    }

    /// A cursor that will hand out `items` from the first to the last.
    pub fn new(items: Vec<T>) -> (cursor: Self)
        ensures
            cursor@ == items@,
    {
        assert(items@.skip(0) =~= items@);
        LazySequenceCursor { items, pos: 0 }
    }

    /// Hands out the element at the front and moves past it, or reports
    /// exhaustion and stays where it is.
    pub fn next(&mut self) -> (item: Option<&T>)
        ensures
            item.is_some() == cursor_step(old(self)@).0.is_some(),
            item matches Some(x) ==> cursor_step(old(self)@).0 == Some(*x),
            final(self)@ == cursor_step(old(self)@).1,
            final(self)@.len() <= old(self)@.len(),
    {
        proof {
            use_type_invariant(&*self);
        }
        if self.pos < self.items.len() {
            let at = self.pos;
            self.pos = at + 1;
            assert(self.items@.skip(at as int).drop_first() =~= self.items@.skip(at + 1));
            Some(&self.items[at])
        } else {
            None
        }
    }
}

/// Appends `bytes` to `out`, one byte after the other.
pub fn push_bytes(out: &mut Vec<u8>, bytes: &[u8])
    ensures
        final(out)@ == old(out)@ + bytes@,
{
    let mut i: usize = 0;
    while i < bytes.len()
        invariant
            i <= bytes.len(),
            out@ == old(out)@ + bytes@.take(i as int),
        decreases bytes.len() - i,
    {
        out.push(bytes[i]);
        i = i + 1;
        assert(bytes@.take(i as int) =~= bytes@.take(i - 1).push(bytes@[i - 1]));
    }
    assert(bytes@.take(i as int) =~= bytes@);
}

/// `http::header::HeaderName`: a parsed header name. Nothing is known of
/// it here but what the contracts below say of the bytes it holds.
#[verifier::external_type_specification]
#[verifier::external_body]
pub struct ExHeaderName(::http::header::HeaderName);

/// `http::header::HeaderValue`: a parsed header value. Nothing is known of
/// it here but what the contracts below say of its bytes and its mark.
#[verifier::external_type_specification]
#[verifier::external_body]
pub struct ExHeaderValue(::http::header::HeaderValue);

/// `http::header::InvalidHeaderName`: the error of a rejected header name.
#[verifier::external_type_specification]
#[verifier::external_body]
pub struct ExInvalidHeaderName(::http::header::InvalidHeaderName);

/// `http::header::InvalidHeaderValue`: the error of a rejected header
/// value.
#[verifier::external_type_specification]
#[verifier::external_body]
pub struct ExInvalidHeaderValue(::http::header::InvalidHeaderValue);

/// The bytes a parsed header name holds.
pub uninterp spec fn header_name_bytes(name: ::http::header::HeaderName) -> Seq<u8>;

/// The bytes a parsed header value holds.
pub uninterp spec fn header_value_bytes(value: ::http::header::HeaderValue) -> Seq<u8>;

/// Whether a parsed header value is marked sensitive.
pub uninterp spec fn header_value_sensitive(value: ::http::header::HeaderValue) -> bool;

/// The text of a parsed header name.
pub open spec fn header_name_text(name: ::http::header::HeaderName) -> Seq<char> {
    decode_utf8(header_name_bytes(name))
}

/// `HeaderValue::as_bytes`: the bytes the value holds.
#[verifier::external_body]
fn value_bytes(value: &::http::header::HeaderValue) -> (bytes: &[u8])
    ensures
        bytes@ == header_value_bytes(*value),
{
    value.as_bytes()
}

/// `HeaderValue::is_sensitive`: whether the value is marked sensitive.
#[verifier::external_body]
fn value_is_sensitive(value: &::http::header::HeaderValue) -> (sensitive: bool)
    ensures
        sensitive == header_value_sensitive(*value),
{
    value.is_sensitive()
}

/// `HeaderName::as_str`: the name as text, which is made of the bytes the
/// name holds.
#[verifier::external_body]
fn name_text(name: &::http::header::HeaderName) -> (text: &str)
    ensures
        text.spec_bytes() == header_name_bytes(*name),
{
    name.as_str()
}

/// Appends the text of a header name to `out`.
fn push_name(out: &mut String, name: &::http::header::HeaderName)
    ensures
        final(out)@ == old(out)@ + header_name_text(*name),
{
    let text = name_text(name);
    proof {
        encode_utf8_decode_utf8(text@);
    }
    out.append(text);
}

/// Reports a header value: its bytes are appended to `value_out` and its
/// sensitivity is written to `is_sensitive_out`.
fn put_value(
    value: &::http::header::HeaderValue,
    value_out: &mut Vec<u8>,
    is_sensitive_out: &mut bool,
)
    ensures
        final(value_out)@ == old(value_out)@ + header_value_bytes(*value),
        *final(is_sensitive_out) == header_value_sensitive(*value),
{
    push_bytes(value_out, value_bytes(value));
    *is_sensitive_out = value_is_sensitive(value);
}

/// A cursor over the values of one header.
pub struct HeaderValuesIter(pub LazySequenceCursor<::http::header::HeaderValue>);

impl HeaderValuesIter {
    /// Hands out the next value: its bytes are appended to `value_out` and
    /// its sensitivity is written to `is_sensitive_out`. Returns `false`,
    /// and writes nothing, when no value is left.
    pub fn next(&mut self, value_out: &mut Vec<u8>, is_sensitive_out: &mut bool) -> (more: bool)
        ensures
            more == (old(self).0@.len() > 0),
            final(self).0@ == cursor_step(old(self).0@).1,
            more ==> final(value_out)@ == old(value_out)@ + header_value_bytes(old(self).0@[0]),
            more ==> *final(is_sensitive_out) == header_value_sensitive(old(self).0@[0]),
            !more ==> final(value_out)@ == old(value_out)@,
            !more ==> *final(is_sensitive_out) == *old(is_sensitive_out),
    {
        match self.0.next() {
            Some(value) => {
                put_value(value, value_out, is_sensitive_out);
                true
            },
            None => false,
        }
    }
}

/// A cursor over header names, in their normalized form.
pub struct HeaderNamesIter(pub LazySequenceCursor<::http::header::HeaderName>);

impl HeaderNamesIter {
    /// Appends the next name to `out`. Returns `false`, and writes nothing,
    /// when no name is left.
    pub fn next(&mut self, out: &mut String) -> (more: bool)
        ensures
            more == (old(self).0@.len() > 0),
            final(self).0@ == cursor_step(old(self).0@).1,
            more ==> final(out)@ == old(out)@ + header_name_text(old(self).0@[0]),
            !more ==> final(out)@ == old(out)@,
    {
        match self.0.next() {
            Some(name) => {
                push_name(out, name);
                true
            },
            None => false,
        }
    }
}

/// A cursor over header names as the client spelled them.
pub struct OriginalHeaderNamesIter(pub LazySequenceCursor<String>);

impl OriginalHeaderNamesIter {
    /// Appends the next name to `out`. Returns `false`, and writes nothing,
    /// when no name is left.
    pub fn next(&mut self, out: &mut String) -> (more: bool)
        ensures
            more == (old(self).0@.len() > 0),
            final(self).0@ == cursor_step(old(self).0@).1,
            more ==> final(out)@ == old(out)@ + old(self).0@[0]@,
            !more ==> final(out)@ == old(out)@,
    {
        match self.0.next() {
            Some(name) => {
                out.append(name.as_str());
                true
            },
            None => false,
        }
    }
}

/// A cursor over headers, one name and value at a time.
pub struct HeadersIter(
    pub LazySequenceCursor<(::http::header::HeaderName, ::http::header::HeaderValue)>,
);

impl HeadersIter {
    /// Hands out the next header: its name is appended to `name_out`, the
    /// bytes of its value to `value_out`, and the value's sensitivity is
    /// written to `is_sensitive_out`. Returns `false`, and writes nothing,
    /// when no header is left.
    pub fn next(
        &mut self,
        name_out: &mut String,
        value_out: &mut Vec<u8>,
        is_sensitive_out: &mut bool,
    ) -> (more: bool)
        ensures
            more == (old(self).0@.len() > 0),
            final(self).0@ == cursor_step(old(self).0@).1,
            more ==> final(name_out)@ == old(name_out)@ + header_name_text(old(self).0@[0].0),
            more ==> final(value_out)@ == old(value_out)@ + header_value_bytes(
                old(self).0@[0].1,
            ),
            more ==> *final(is_sensitive_out) == header_value_sensitive(old(self).0@[0].1),
            !more ==> final(name_out)@ == old(name_out)@,
            !more ==> final(value_out)@ == old(value_out)@,
            !more ==> *final(is_sensitive_out) == *old(is_sensitive_out),
    {
        match self.0.next() {
            Some(header) => {
                push_name(name_out, &header.0);
                put_value(&header.1, value_out, is_sensitive_out);
                true
            },
            None => false,
        }
    }
}

/// Takes a cursor and hands the same cursor back. A handle type that the
/// foreign side can hold needs an operation that takes it by value, so that
/// its release entry point exists.
pub fn f_headers_iter_force_symbols(val: Box<HeadersIter>) -> (same: Box<HeadersIter>)
    ensures
        same == val,
{
    val
}

/// Takes a cursor and hands the same cursor back; see
/// [`f_headers_iter_force_symbols`].
pub fn f_header_names_iter_force_symbols(val: Box<HeaderNamesIter>) -> (same: Box<HeaderNamesIter>)
    ensures
        same == val,
{
    val
}

/// Takes a cursor and hands the same cursor back; see
/// [`f_headers_iter_force_symbols`].
pub fn f_header_values_iter_force_symbols(val: Box<HeaderValuesIter>) -> (same: Box<
    HeaderValuesIter,
>)
    ensures
        same == val,
{
    val
}

/// Takes a cursor and hands the same cursor back; see
/// [`f_headers_iter_force_symbols`].
pub fn f_original_header_names_iter_force_symbols(val: Box<OriginalHeaderNamesIter>) -> (same: Box<
    OriginalHeaderNamesIter,
>)
    ensures
        same == val,
{
    val
}

/// The bytes a header name may be written with: the token characters of
/// HTTP, letters in either case.
pub open spec fn is_header_name_byte(b: u8) -> bool {
    ||| b == 33
    ||| 35 <= b <= 39
    ||| b == 42
    ||| b == 43
    ||| b == 45
    ||| b == 46
    ||| 48 <= b <= 57
    ||| 65 <= b <= 90
    ||| 94 <= b <= 122
    ||| b == 124
    ||| b == 126
}

/// The byte strings that are header names: between 1 and 65535 token
/// characters.
pub open spec fn is_header_name(bytes: Seq<u8>) -> bool {
    &&& 1 <= bytes.len() <= 65535
    &&& forall|i: int| 0 <= i < bytes.len() ==> is_header_name_byte(#[trigger] bytes[i])
}

/// The bytes a header value may hold: anything but control characters,
/// where the horizontal tab is no control character.
pub open spec fn is_header_value_byte(b: u8) -> bool {
    (b >= 32 && b != 127) || b == 9
}

/// The byte strings that are header values.
pub open spec fn is_header_value(bytes: Seq<u8>) -> bool {
    forall|i: int| 0 <= i < bytes.len() ==> is_header_value_byte(#[trigger] bytes[i])
}

/// The byte in lower case: an upper-case letter becomes its lower-case
/// letter, every other byte stays.
pub open spec fn lower_case_byte(b: u8) -> u8 {
    if 65 <= b <= 90 {
        (b + 32) as u8
    } else {
        b
    }
}

/// The byte string in lower case.
pub open spec fn lower_case(bytes: Seq<u8>) -> Seq<u8> {
    Seq::new(bytes.len(), |i: int| lower_case_byte(bytes[i]))
}

/// `HeaderName::from_bytes`: accepts a name of 1 to 65535 bytes, each of
/// which its table of header characters maps to a lower-case token
/// character, and rejects every other byte string. The name it gives holds
/// the bytes as the table maps them, that is in lower case.
#[verifier::external_body]
fn parse_header_name(name: &[u8]) -> (parsed: Result<
    ::http::header::HeaderName,
    ::http::header::InvalidHeaderName,
>)
    ensures
        parsed is Ok <==> is_header_name(name@),
        parsed matches Ok(n) ==> header_name_bytes(n) == lower_case(name@),
{
    ::http::header::HeaderName::from_bytes(name)
}

/// `HeaderValue::from_bytes`: accepts a value when each byte is at least
/// 32 and not 127, or is a tab, and rejects every other byte string. The
/// value it gives holds a copy of the bytes and is not marked sensitive.
#[verifier::external_body]
fn parse_header_value(value: &[u8]) -> (parsed: Result<
    ::http::header::HeaderValue,
    ::http::header::InvalidHeaderValue,
>)
    ensures
        parsed is Ok <==> is_header_value(value@),
        parsed matches Ok(v) ==> header_value_bytes(v) == value@ && !header_value_sensitive(v),
{
    ::http::header::HeaderValue::from_bytes(value)
}

/// The text of a rejected header name, as its `Display` impl writes it: one
/// fixed sentence.
#[verifier::external_body]
fn invalid_header_name_text(error: &::http::header::InvalidHeaderName) -> (text: String)
    ensures
        text@ == "invalid HTTP header name"@,
{
    error.to_string()
}

/// The text of a rejected header value, as its `Display` impl writes it:
/// one fixed sentence.
#[verifier::external_body]
fn invalid_header_value_text(error: &::http::header::InvalidHeaderValue) -> (text: String)
    ensures
        text@ == "failed to parse header value"@,
{
    error.to_string()
}

/// Reads a header-name argument.
///
/// A byte string that is a header name gives the parsed name and clears
/// the slot. Any other gives nothing and leaves an `InvalidHeaderName`
/// error in the slot.
pub fn header_name_arg(name: &[u8], err: &mut ErrorSlot<FastlyError>) -> (parsed: Option<
    ::http::header::HeaderName,
>)
    ensures
        parsed is Some <==> is_header_name(name@),
        parsed matches Some(n) ==> header_name_bytes(n) == lower_case(name@),
        final(err).null() <==> is_header_name(name@),
        !is_header_name(name@) ==> final(err).reports_text(
            FastlyErrorCode::InvalidHeaderName,
            "invalid HTTP header name"@,
        ),
{
    match parse_header_name(name) {
        Ok(parsed) => {
            err.set_null();
            Some(parsed)
        },
        Err(e) => {
            err.set_error(FastlyError::InvalidHeaderName(invalid_header_name_text(&e)));
            None
        },
    }
}

/// Reads a header-value argument.
///
/// A byte string that is a header value gives the parsed value and clears
/// the slot. Any other gives nothing and leaves an `InvalidHeaderValue`
/// error in the slot.
pub fn header_value_arg(value: &[u8], err: &mut ErrorSlot<FastlyError>) -> (parsed: Option<
    ::http::header::HeaderValue,
>)
    ensures
        parsed is Some <==> is_header_value(value@),
        parsed matches Some(v) ==> header_value_bytes(v) == value@ && !header_value_sensitive(v),
        final(err).null() <==> is_header_value(value@),
        !is_header_value(value@) ==> final(err).reports_text(
            FastlyErrorCode::InvalidHeaderValue,
            "failed to parse header value"@,
        ),
{
    match parse_header_value(value) {
        Ok(parsed) => {
            err.set_null();
            Some(parsed)
        },
        Err(e) => {
            err.set_error(FastlyError::InvalidHeaderValue(invalid_header_value_text(&e)));
            None
        },
    }
}

/// Reads the two arguments of an operation that sets a header: the name
/// first, then the value.
///
/// Gives both when both are well formed, and clears the slot. A malformed
/// name is reported as `InvalidHeaderName` whatever the value is; a
/// malformed value under a well-formed name as `InvalidHeaderValue`.
pub fn header_arg(name: &[u8], value: &[u8], err: &mut ErrorSlot<FastlyError>) -> (parsed:
    Option<(::http::header::HeaderName, ::http::header::HeaderValue)>)
    ensures
        parsed is Some <==> is_header_name(name@) && is_header_value(value@),
        parsed matches Some(pair) ==> header_name_bytes(pair.0) == lower_case(name@)
            && header_value_bytes(pair.1) == value@ && !header_value_sensitive(pair.1),
        final(err).null() <==> is_header_name(name@) && is_header_value(value@),
        !is_header_name(name@) ==> final(err).reports_text(
            FastlyErrorCode::InvalidHeaderName,
            "invalid HTTP header name"@,
        ),
        is_header_name(name@) && !is_header_value(value@) ==> final(err).reports_text(
            FastlyErrorCode::InvalidHeaderValue,
            "failed to parse header value"@,
        ),
{
    match header_name_arg(name, err) {
        Some(parsed_name) => match header_value_arg(value, err) {
            Some(parsed_value) => Some((parsed_name, parsed_value)),
            None => None,
        },
        None => None,
    }
}

/// Reports the value found under a header: its bytes are appended to
/// `value_out` and its sensitivity is written to `is_sensitive_out`.
/// Returns `false`, and writes nothing, when the header is not there.
pub fn put_header_value(
    found: Option<&::http::header::HeaderValue>,
    value_out: &mut Vec<u8>,
    is_sensitive_out: &mut bool,
) -> (present: bool)
    ensures
        present == (found is Some),
        found matches Some(value) ==> final(value_out)@ == old(value_out)@ + header_value_bytes(
            *value,
        ),
        found matches Some(value) ==> *final(is_sensitive_out) == header_value_sensitive(*value),
        found is None ==> final(value_out)@ == old(value_out)@,
        found is None ==> *final(is_sensitive_out) == *old(is_sensitive_out),
{
    match found {
        Some(value) => {
            put_value(value, value_out, is_sensitive_out);
            true
        },
        None => false,
    }
}

/// Reports the value that was removed from under a header: its bytes are
/// appended to `out`. Returns `false`, and writes nothing, when the header
/// was not there.
pub fn put_removed_value(
    found: Option<&::http::header::HeaderValue>,
    out: &mut Vec<u8>,
) -> (present: bool)
    ensures
        present == (found is Some),
        found matches Some(value) ==> final(out)@ == old(out)@ + header_value_bytes(*value),
        found is None ==> final(out)@ == old(out)@,
{
    match found {
        Some(value) => {
            push_bytes(out, value_bytes(value));
            true
        },
        None => false,
    }
}

/// Starts a cursor over the values found under a header.
pub fn header_values_cursor(values: Vec<::http::header::HeaderValue>) -> (cursor: Box<
    HeaderValuesIter,
>)
    ensures
        cursor.0@ == values@,
{
    Box::new(HeaderValuesIter(LazySequenceCursor::new(values)))
}

} // verus!
