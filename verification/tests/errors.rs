use membrane::text::append_decimal;
use membrane::{Error, ErrorKind};

fn decimal_of(n: i32) -> String {
    let mut out = String::new();
    append_decimal(&mut out, n);
    out
}

#[test]
fn decimal_text_of_integers() {
    assert_eq!(decimal_of(0), "0");
    assert_eq!(decimal_of(7), "7");
    assert_eq!(decimal_of(10), "10");
    assert_eq!(decimal_of(109), "109");
    assert_eq!(decimal_of(-1), "-1");
    assert_eq!(decimal_of(-120), "-120");
    assert_eq!(decimal_of(1234567890), "1234567890");
    assert_eq!(decimal_of(i32::MAX), "2147483647");
    assert_eq!(decimal_of(i32::MIN), "-2147483648");
}

#[test]
fn decimal_text_agrees_with_the_standard_formatting() {
    let mut n: i32 = -1000;
    while n <= 1000 {
        assert_eq!(decimal_of(n), format!("{}", n));
        n += 1;
    }
}

#[test]
fn decimal_text_is_appended() {
    let mut out = String::from("id=");
    append_decimal(&mut out, 42);
    assert_eq!(out, "id=42");
}

#[test]
fn unknown_handle_error() {
    let error = Error::unknown_handle(7);
    assert_eq!(error.kind, ErrorKind::UnknownHandle);
    assert_eq!(error.message, "could not find buffer: 7");
    assert_eq!(error.to_text(), "nucleus error: could not find buffer: 7");
}

#[test]
fn invalid_encoding_error() {
    let error = Error::invalid_encoding(-3);
    assert_eq!(error.kind, ErrorKind::InvalidEncoding);
    assert_eq!(error.message, "buffer is not valid utf-8: -3");
}

#[test]
fn negative_length_error() {
    let error = Error::negative_length(i32::MIN);
    assert_eq!(error.kind, ErrorKind::NegativeLength);
    assert_eq!(error.message, "negative buffer length: -2147483648");
}

#[test]
fn poisoned_error() {
    let error = Error::poisoned();
    assert_eq!(error.kind, ErrorKind::Poisoned);
    assert_eq!(error.message, "buffer registry lock is poisoned");
    assert_eq!(error.to_text(), "nucleus error: buffer registry lock is poisoned");
}
