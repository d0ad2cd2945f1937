//! The library's error type.

use crate::text::push_str;
use vstd::prelude::*;

verus! {

/// The error of an estrella operation.
#[derive(Debug, Clone, PartialEq, Eq)]
pub enum EstrellaError {
    /// A transport failure (connection, I/O).
    Transport(String),
    /// An invalid command or parameter.
    InvalidCommand(String),
    /// A pattern could not be generated.
    Pattern(String),
    /// An image could not be processed.
    Image(String),
    /// An I/O failure, by its message.
    Io(String),
}

/// The message of an error: its kind's prefix, then its detail.
pub open spec fn error_message(e: EstrellaError) -> Seq<char> {
    match e {
        EstrellaError::Transport(s) => "Transport error: "@ + s@,
        EstrellaError::InvalidCommand(s) => "Invalid command: "@ + s@,
        EstrellaError::Pattern(s) => "Pattern error: "@ + s@,
        EstrellaError::Image(s) => "Image error: "@ + s@,
        EstrellaError::Io(s) => "I/O error: "@ + s@,
    }
}

impl EstrellaError {
    /// The error's message, as it is displayed.
    pub fn message(&self) -> (m: String)
        ensures
            m@ == error_message(*self),
    {
        let mut m = String::new();
        let (prefix, detail) = match self {
            EstrellaError::Transport(s) => ("Transport error: ", s),
            EstrellaError::InvalidCommand(s) => ("Invalid command: ", s),
            EstrellaError::Pattern(s) => ("Pattern error: ", s),
            EstrellaError::Image(s) => ("Image error: ", s),
            EstrellaError::Io(s) => ("I/O error: ", s),
        };
        push_str(&mut m, prefix);
        push_str(&mut m, detail.as_str());
        assert(m@ =~= error_message(*self));
        m
    }
}

} // verus!
