//! The errors a read can end in.

use std::fmt::Display;
use vstd::prelude::*;
use vstd::string::*;

verus! {

/// The reason a read did not produce a line.
#[derive(Debug, PartialEq, Eq, Structural, Clone, Copy)]
pub enum ErrorKind {
    /// The line source itself failed.
    IoError,
    /// Every allowed attempt was rejected by the validator.
    AttemptsExceedError,
    /// The validator rejected the one line that was read.
    InputRequirementError,
}

/// Makes `std::io::Error` known to the verifier as an opaque type. Nothing
/// is claimed about what such a value holds; the library carries it from a
/// line source to the message of an [`InputReadError`].
#[verifier::external_type_specification]
#[verifier::external_body]
pub struct ExIoError(std::io::Error);

/// A failed read: what went wrong, and a message for the person at the keyboard.
#[derive(Debug)]
pub struct InputReadError {
    msg: String,
    kind: ErrorKind,
}

/// What an [`InputReadError`] says, as the contracts see it.
pub struct Failure {
    pub kind: ErrorKind,
    pub text: Seq<char>,
}

impl View for InputReadError {
    type V = Failure;

    closed spec fn view(&self) -> Failure {
        Failure { kind: self.kind, text: self.msg@ }
    }
}

/// `text` is a rendering that `value`'s `Display` produces.
pub open spec fn shows_as<T: Display>(value: &T, text: Seq<char>) -> bool {
    exists|rendered: String| #[trigger]
        to_string_from_display_ensures::<T>(value, rendered) && rendered@ == text
}

/// What every message about a rejected single read starts with.
pub open spec fn rejected_prefix() -> Seq<char> {
    "wrong input. "@
}

/// What every message about used-up attempts starts with.
pub open spec fn exhausted_prefix() -> Seq<char> {
    "attempts to read input were failed. "@
}

impl InputReadError {
    /// What went wrong.
    pub fn kind(&self) -> (kind: &ErrorKind)
        ensures
            *kind == self@.kind,
    {
        &self.kind
    }

    /// The message, as the error is to be displayed.
    pub fn message(&self) -> (text: &str)
        ensures
            text@ == self@.text,
    {
        self.msg.as_str()
    }

    /// The error for a single read whose line the validator rejected with `reason`.
    pub(crate) fn rejected(reason: &str) -> (e: InputReadError)
        ensures
            e@.kind == ErrorKind::InputRequirementError,
            e@.text == rejected_prefix() + reason@,
    {
        InputReadError {
            msg: String::from_str("wrong input. ").concat(reason),
            kind: ErrorKind::InputRequirementError,
        }
    }

    /// The error for a retried read whose last attempt was rejected with
    /// `last_reason`.
    pub(crate) fn exhausted(last_reason: &str) -> (e: InputReadError)
        ensures
            e@.kind == ErrorKind::AttemptsExceedError,
            e@.text == exhausted_prefix() + last_reason@,
    {
        InputReadError {
            msg: String::from_str("attempts to read input were failed. ").concat(last_reason),
            kind: ErrorKind::AttemptsExceedError,
        }
    }
}

/// The message of a converted failure is whatever the failure displays as,
/// which is a relation and no function of the failure. So the conversion has
/// no value to name here, and what it promises stands on `from` itself.
impl vstd::std_specs::convert::FromSpecImpl<std::io::Error> for InputReadError {
    open spec fn obeys_from_spec() -> bool {
        false
    }

    open spec fn from_spec(value: std::io::Error) -> InputReadError {
        arbitrary()
    }
}

impl From<std::io::Error> for InputReadError {
    /// A failure of the line source, with the source's own words as the message.
    fn from(value: std::io::Error) -> (e: InputReadError)
        ensures
            e@.kind == ErrorKind::IoError,
            shows_as(&value, e@.text),
    {
        InputReadError { msg: value.to_string(), kind: ErrorKind::IoError }
    }
}

} // verus!
