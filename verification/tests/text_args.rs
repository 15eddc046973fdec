use fastly_bridge::error::{ErrorSlot, FastlyError, FastlyErrorCode};
use fastly_bridge::http::header::{header_arg, header_name_arg, header_value_arg};
use fastly_bridge::http::status_code::f_http_status_code_canonical_reason;
use fastly_bridge::http::{content_type_arg, ContentTypeFault};
use fastly_bridge::text::{
    lossy_text_arg, push_optional_bytes, push_optional_text, text_arg, utf8_text,
};

fn message(error: &FastlyError) -> String {
    let mut text = String::new();
    error.error_msg(&mut text);
    text
}

#[test]
fn a_text_argument_in_utf8_is_read_as_it_stands() {
    let mut slot: ErrorSlot<FastlyError> = ErrorSlot::new();
    slot.set_error(FastlyError::IoError(String::from("stale")));
    assert_eq!(text_arg("gr\u{fc}\u{df}e".as_bytes(), &mut slot), Some("gr\u{fc}\u{df}e"));
    assert!(slot.is_null());
    assert_eq!(text_arg(b"", &mut slot), Some(""));
    assert!(slot.is_null());
}

#[test]
fn a_text_argument_that_is_not_utf8_is_a_utf8_error() {
    let mut slot: ErrorSlot<FastlyError> = ErrorSlot::new();
    assert_eq!(text_arg(&[b'a', 0xff, b'b'], &mut slot), None);
    let error = slot.take().unwrap();
    assert_eq!(error.error_code(), FastlyErrorCode::Utf8Error);
    assert_eq!(message(&error), "invalid utf-8 sequence of 1 bytes from index 1");

    assert_eq!(text_arg(&[0xe2, 0x82], &mut slot), None);
    let error = slot.take().unwrap();
    assert_eq!(error.error_code(), FastlyErrorCode::Utf8Error);
    assert_eq!(message(&error), "incomplete utf-8 byte sequence from index 0");
}

#[test]
fn utf8_text_tells_text_from_other_bytes() {
    assert_eq!(utf8_text(b"plain"), Some("plain"));
    assert_eq!(utf8_text(&[0xc0, 0x80]), None);
    assert_eq!(utf8_text(&[0xed, 0xa0, 0x80]), None);
}

#[test]
fn lenient_text_replaces_what_is_not_utf8() {
    assert_eq!(lossy_text_arg(b"corp"), "corp");
    assert_eq!(lossy_text_arg(&[b'h', 0xff, b'i']), "h\u{fffd}i");
    assert_eq!(lossy_text_arg(&[]), "");
}

#[test]
fn text_is_appended_to_the_buffer_of_the_caller() {
    let mut out = String::from("abc");
    assert!(push_optional_text(&mut out, Some("d")));
    assert_eq!(out, "abcd");
    assert!(!push_optional_text(&mut out, None));
    assert_eq!(out, "abcd");
    assert!(push_optional_text(&mut out, Some("")));
    assert_eq!(out, "abcd");

    let mut bytes = vec![9u8];
    assert!(push_optional_bytes(&mut bytes, Some(&[1, 2])));
    assert_eq!(bytes, [9u8, 1, 2]);
    assert!(!push_optional_bytes(&mut bytes, None));
    assert_eq!(bytes, [9u8, 1, 2]);
}

#[test]
fn a_header_name_is_parsed_and_put_in_lower_case() {
    let mut slot: ErrorSlot<FastlyError> = ErrorSlot::new();
    let name = header_name_arg(b"Content-Type", &mut slot).unwrap();
    assert_eq!(name.as_str(), "content-type");
    assert!(slot.is_null());
    let name = header_name_arg(b"X-Custom_Header.v2~", &mut slot).unwrap();
    assert_eq!(name.as_str(), "x-custom_header.v2~");
    let name = header_name_arg(b"!#$%&'*+-.^_`|~09AZaz", &mut slot).unwrap();
    assert_eq!(name.as_str(), "!#$%&'*+-.^_`|~09azaz");
    assert!(slot.is_null());
}

#[test]
fn a_malformed_header_name_is_an_invalid_header_name() {
    let mut slot: ErrorSlot<FastlyError> = ErrorSlot::new();
    let long = vec![b'a'; 70];
    let mut long_bad = long.clone();
    long_bad[69] = b'/';
    let rejected: [&[u8]; 9] = [
        b"",
        b"bad name",
        b"quote\"d",
        b"colon:",
        b"caf\xc3\xa9",
        b"(paren)",
        b"a,b",
        b"nul\x00",
        &long_bad,
    ];
    for name in rejected {
        assert!(header_name_arg(name, &mut slot).is_none());
        let error = slot.take().unwrap();
        assert_eq!(error.error_code(), FastlyErrorCode::InvalidHeaderName);
        assert_eq!(message(&error), "invalid HTTP header name");
    }
    assert!(header_name_arg(&long, &mut slot).is_some());
    assert!(slot.is_null());
}

#[test]
fn a_header_name_may_have_65535_bytes_and_no_more() {
    let mut slot: ErrorSlot<FastlyError> = ErrorSlot::new();
    let longest = vec![b'N'; 65535];
    let name = header_name_arg(&longest, &mut slot).unwrap();
    assert_eq!(name.as_str().len(), 65535);
    assert!(name.as_str().bytes().all(|b| b == b'n'));
    assert!(slot.is_null());
    let too_long = vec![b'n'; 65536];
    assert!(header_name_arg(&too_long, &mut slot).is_none());
    assert_eq!(slot.take().unwrap().error_code(), FastlyErrorCode::InvalidHeaderName);
    assert!(header_name_arg(&[b'n'; 64], &mut slot).is_some());
    assert!(header_name_arg(&[b'n'; 65], &mut slot).is_some());
}

#[test]
fn a_header_value_holds_anything_but_control_characters() {
    let mut slot: ErrorSlot<FastlyError> = ErrorSlot::new();
    let value = header_value_arg(b"text/html; charset=utf-8", &mut slot).unwrap();
    assert_eq!(value.as_bytes(), b"text/html; charset=utf-8");
    assert!(!value.is_sensitive());
    assert!(slot.is_null());
    assert!(header_value_arg(b"", &mut slot).is_some());
    assert!(header_value_arg(b"tab\tis fine", &mut slot).is_some());
    assert!(header_value_arg(&[32, 126, 128, 255], &mut slot).is_some());
    assert!(slot.is_null());

    let rejected: [&[u8]; 5] = [b"line\nbreak", b"\r", &[127], &[0], &[b'a', 31, b'b']];
    for value in rejected {
        assert!(header_value_arg(value, &mut slot).is_none());
        let error = slot.take().unwrap();
        assert_eq!(error.error_code(), FastlyErrorCode::InvalidHeaderValue);
        assert_eq!(message(&error), "failed to parse header value");
    }
}

#[test]
fn the_name_of_a_header_is_looked_at_before_its_value() {
    let mut slot: ErrorSlot<FastlyError> = ErrorSlot::new();
    let (name, value) = header_arg(b"Accept", b"*/*", &mut slot).unwrap();
    assert_eq!(name.as_str(), "accept");
    assert_eq!(value.as_bytes(), b"*/*");
    assert!(slot.is_null());

    assert!(header_arg(b"bad name", b"bad\nvalue", &mut slot).is_none());
    assert_eq!(slot.take().unwrap().error_code(), FastlyErrorCode::InvalidHeaderName);
    assert!(header_arg(b"bad name", b"fine", &mut slot).is_none());
    assert_eq!(slot.take().unwrap().error_code(), FastlyErrorCode::InvalidHeaderName);
    assert!(header_arg(b"accept", b"bad\nvalue", &mut slot).is_none());
    assert_eq!(slot.take().unwrap().error_code(), FastlyErrorCode::InvalidHeaderValue);
}

#[test]
fn a_registered_status_code_has_its_reason_appended() {
    let mut slot: ErrorSlot<FastlyError> = ErrorSlot::new();
    let mut out = String::from("HTTP ");
    assert!(f_http_status_code_canonical_reason(200, &mut out, &mut slot));
    assert_eq!(out, "HTTP OK");
    assert!(slot.is_null());
    let mut out = String::new();
    assert!(f_http_status_code_canonical_reason(404, &mut out, &mut slot));
    assert_eq!(out, "Not Found");
    let mut out = String::new();
    assert!(f_http_status_code_canonical_reason(100, &mut out, &mut slot));
    assert_eq!(out, "Continue");
    let mut out = String::new();
    assert!(f_http_status_code_canonical_reason(511, &mut out, &mut slot));
    assert_eq!(out, "Network Authentication Required");
}

#[test]
fn an_unregistered_status_code_has_no_reason_and_is_no_error() {
    let mut slot: ErrorSlot<FastlyError> = ErrorSlot::new();
    slot.set_error(FastlyError::IoError(String::from("stale")));
    let mut out = String::from("x");
    assert!(!f_http_status_code_canonical_reason(299, &mut out, &mut slot));
    assert_eq!(out, "x");
    assert!(slot.is_null());
    assert!(!f_http_status_code_canonical_reason(999, &mut out, &mut slot));
    assert!(slot.is_null());
}

#[test]
fn a_number_that_is_no_status_code_is_an_invalid_status_code() {
    let mut slot: ErrorSlot<FastlyError> = ErrorSlot::new();
    for code in [0u16, 99, 1000, u16::MAX] {
        let mut out = String::from("x");
        assert!(!f_http_status_code_canonical_reason(code, &mut out, &mut slot));
        assert_eq!(out, "x");
        let error = slot.take().unwrap();
        assert_eq!(error.error_code(), FastlyErrorCode::InvalidStatusCode);
        assert_eq!(message(&error), "invalid status code");
    }
}

#[test]
fn a_content_type_must_be_text_and_a_media_type() {
    let parsed = content_type_arg(b"text/plain; charset=utf-8").unwrap();
    assert_eq!(parsed.as_ref(), "text/plain; charset=utf-8");
    assert_eq!(parsed.essence_str(), "text/plain");
    assert_eq!(content_type_arg(b"not a media type").unwrap_err(), ContentTypeFault::InvalidMime);
    assert_eq!(content_type_arg(b"").unwrap_err(), ContentTypeFault::InvalidMime);
    assert_eq!(content_type_arg(&[0xff, b'/', b'x']).unwrap_err(), ContentTypeFault::InvalidUtf8);
}
