//! The typed failures of the registry.

use crate::text::{append_decimal, decimal};
use vstd::prelude::*;
use vstd::string::StringExecFns;

verus! {

/// What went wrong in a registry operation.
#[derive(Clone, Copy, Debug, PartialEq, Eq, Structural)]
pub enum ErrorKind {
    /// The handle was never issued, or its buffer was already consumed or
    /// released.
    UnknownHandle,
    /// The buffer's bytes are not valid UTF-8 where a string was asked for.
    InvalidEncoding,
    /// A buffer of negative length was asked for.
    NegativeLength,
    /// The lock that guards the registry can no longer be used.
    Poisoned,
}

/// A failure of a registry operation: its kind, and a message for people.
#[derive(Debug, PartialEq, Eq)]
pub struct Error {
    pub kind: ErrorKind,
    pub message: String,
}

impl Error {
    /// The message of an unknown handle.
    pub open spec fn unknown_handle_message(handle: i32) -> Seq<char> {
        "could not find buffer: "@ + decimal(handle as int)
    }

    /// The message of a buffer that does not hold UTF-8.
    pub open spec fn invalid_encoding_message(handle: i32) -> Seq<char> {
        "buffer is not valid utf-8: "@ + decimal(handle as int)
    }

    /// The message of a negative length.
    pub open spec fn negative_length_message(length: i32) -> Seq<char> {
        "negative buffer length: "@ + decimal(length as int)
    }

    /// The message of an unusable lock.
    pub open spec fn poisoned_message() -> Seq<char> {
        "buffer registry lock is poisoned"@
    }

    /// The failure of an operation on a handle that the registry does not hold.
    pub fn unknown_handle(handle: i32) -> (e: Error)
        ensures
            e.kind == ErrorKind::UnknownHandle,
            e.message@ == Self::unknown_handle_message(handle),
    {
        let mut message = String::from_str("could not find buffer: ");
        append_decimal(&mut message, handle);
        Error { kind: ErrorKind::UnknownHandle, message }
    }

    /// The failure of reading as a string a buffer that does not hold UTF-8.
    pub fn invalid_encoding(handle: i32) -> (e: Error)
        ensures
            e.kind == ErrorKind::InvalidEncoding,
            e.message@ == Self::invalid_encoding_message(handle),
    {
        let mut message = String::from_str("buffer is not valid utf-8: ");
        append_decimal(&mut message, handle);
        Error { kind: ErrorKind::InvalidEncoding, message }
    }

    /// The failure of asking for a buffer of negative length.
    pub fn negative_length(length: i32) -> (e: Error)
        ensures
            e.kind == ErrorKind::NegativeLength,
            e.message@ == Self::negative_length_message(length),
    {
        let mut message = String::from_str("negative buffer length: ");
        append_decimal(&mut message, length);
        Error { kind: ErrorKind::NegativeLength, message }
    }

    /// The failure of a call that found the registry's lock unusable.
    pub fn poisoned() -> (e: Error)
        ensures
            e.kind == ErrorKind::Poisoned,
            e.message@ == Self::poisoned_message(),
    {
        Error {
            kind: ErrorKind::Poisoned,
            message: String::from_str("buffer registry lock is poisoned"),
        }
    }

    /// The failure as one line of text: a fixed prefix, then the message.
    pub fn to_text(&self) -> (line: String)
        ensures
            line@ == "nucleus error: "@ + self.message@,
    {
        let mut line = String::from_str("nucleus error: ");
        line.append(self.message.as_str());
        line
    }
}

} // verus!
