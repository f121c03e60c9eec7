//! The engine's error type.

use crate::text::{append_decimal, decimal_text};
use vstd::prelude::*;

verus! {

/// Every way a download can fail.
///
/// Transport and filesystem failures happen in the driver; they are carried
/// here by their description.
#[derive(Debug)]
pub enum ProgramError {
    /// Invalid arguments or configuration; also a part whose file has the wrong size.
    ArgNotValid(String),
    /// A failure of the HTTP transport.
    Http(String),
    /// A filesystem failure.
    Io(String),
    /// Anything else, such as an unexpected response status.
    Other(String),
}

impl ProgramError {
    /// The text carried by the error, without its prefix.
    pub open spec fn detail(&self) -> Seq<char> {
        match self {
            ProgramError::ArgNotValid(m) => m@,
            ProgramError::Http(m) => m@,
            ProgramError::Io(m) => m@,
            ProgramError::Other(m) => m@,
        }
    }

    /// The prefix that tells the kinds of error apart when shown to the user.
    pub open spec fn prefix(&self) -> Seq<char> {
        match self {
            ProgramError::ArgNotValid(_) => "invalid argument: "@,
            ProgramError::Http(_) => "HTTP error: "@,
            ProgramError::Io(_) => "IO error: "@,
            ProgramError::Other(_) => ""@,
        }
    }

    /// The user-visible text of the error.
    pub open spec fn message_text(&self) -> Seq<char> {
        self.prefix() + self.detail()
    }

    /// Renders the error for the user.
    pub fn message(&self) -> (text: String)
        ensures
            text@ == self.message_text(),
    {
        let mut text = String::new();
        match self {
            ProgramError::ArgNotValid(m) => {
                text.append("invalid argument: ");
                text.append(m.as_str());
            },
            ProgramError::Http(m) => {
                text.append("HTTP error: ");
                text.append(m.as_str());
            },
            ProgramError::Io(m) => {
                text.append("IO error: ");
                text.append(m.as_str());
            },
            ProgramError::Other(m) => {
                text.append("");
                text.append(m.as_str());
            },
        }
        text
    }
}

/// The failure of one part once its attempts are used up: the last error,
/// tagged with the index of the part.
#[derive(Debug)]
pub struct PartFailure {
    /// Index of the part that failed.
    pub part: usize,
    /// The error of the last attempt.
    pub error: ProgramError,
}

impl PartFailure {
    /// The user-visible text: which part failed, and the last underlying error.
    pub open spec fn message_text(&self) -> Seq<char> {
        "part "@ + decimal_text(self.part as nat) + " failed: "@ + self.error.message_text()
    }

    /// Renders the failure for the user.
    pub fn message(&self) -> (text: String)
        ensures
            text@ == self.message_text(),
    {
        let mut text = String::new();
        text.append("part ");
        append_decimal(&mut text, self.part as u64);
        text.append(" failed: ");
        let inner = self.error.message();
        text.append(inner.as_str());
        text
    }
}

} // verus!
