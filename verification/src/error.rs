//! What can go wrong when a line is parsed or narrowed.
use vstd::prelude::*;
use vstd::string::StringExecFns;

verus! {

/// Errors produced by this crate.
#[derive(Debug, Clone, PartialEq, Eq)]
#[non_exhaustive]
pub enum Error {
    /// The line has no command.
    MalformedMessage,
    /// The command is made of digits but is no number that a numeric reply can
    /// carry.
    InvalidNumeric,
    /// A message was asked for as a typed view that its kind does not match.
    IncorrectMessageType {
        /// The view that was asked for.
        expected: &'static str,
        /// The kind that the message has.
        got: &'static str,
    },
}

/// What an error holds, as plain text.
pub enum ErrorModel {
    MalformedMessage,
    InvalidNumeric,
    IncorrectMessageType { expected: Seq<char>, got: Seq<char> },
}

impl View for Error {
    type V = ErrorModel;

    open spec fn view(&self) -> ErrorModel {
        match self {
            Error::MalformedMessage => ErrorModel::MalformedMessage,
            Error::InvalidNumeric => ErrorModel::InvalidNumeric,
            Error::IncorrectMessageType { expected, got } => ErrorModel::IncorrectMessageType {
                expected: expected@,
                got: got@,
            },
        }
    }
}

/// The sentence that describes an error.
pub open spec fn error_text(e: ErrorModel) -> Seq<char> {
    match e {
        ErrorModel::MalformedMessage => "the message was malformed"@,
        ErrorModel::InvalidNumeric => "invalid message numeric"@,
        ErrorModel::IncorrectMessageType { expected, got } => "got "@ + got + ", expected: "@
            + expected,
    }
}

impl Error {
    /// The sentence that describes this error.
    pub fn to_string(&self) -> (r: String)
        ensures
            r@ == error_text(self@),
    {
        match self {
            Error::MalformedMessage => String::from_str("the message was malformed"),
            Error::InvalidNumeric => String::from_str("invalid message numeric"),
            Error::IncorrectMessageType { expected, got } => {
                let mut out = String::from_str("got ");
                out.append(got);
                out.append(", expected: ");
                out.append(expected);
                out
            },
        }
    }
}

} // verus!
