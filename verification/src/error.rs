//! Error type shared by all providers.
use vstd::prelude::*;

verus! {

/// Errors raised by generators. Each variant mirrors the Python exception Faker raises.
#[derive(Debug, Clone, PartialEq, Eq)]
pub enum Error {
    /// Locale has no compiled-in data.
    UnknownLocale(String),
    /// Template or `format()` referenced a formatter that does not exist (Python `AttributeError`).
    UnknownFormatter(String),
    /// Bad argument value (Python `ValueError`).
    InvalidArgument(String),
    /// Choosing from an empty sequence (Python `IndexError`).
    EmptySequence,
    /// Value outside the representable range (Python `OverflowError`).
    Overflow(String),
    /// A date string such as `+3d` could not be parsed (Faker's `ParseError`, a `ValueError`).
    Parse(String),
    /// The locale lacks data the method needs (Python `AttributeError`).
    Unsupported(String),
    /// Faker raises a bare `Exception` for this.
    StateNotFound,
}

/// Result alias for this crate.
pub type Result<T> = core::result::Result<T, Error>;

/// An `InvalidArgument` error with the given message.
pub fn invalid(message: &str) -> (e: Error)
    ensures
        e matches Error::InvalidArgument(m) && m@ == message@,
{
    Error::InvalidArgument(message.to_owned())
}

impl Error {
    /// The text of the message Faker's exception carries for this error.
    pub open spec fn message_of(&self) -> Seq<char> {
        match self {
            Error::UnknownLocale(l) => "locale `"@ + l@ + "` is not available"@,
            Error::UnknownFormatter(n) => "Unknown formatter \""@ + n@ + "\""@,
            Error::InvalidArgument(m) => m@,
            Error::Overflow(m) => m@,
            Error::Parse(m) => m@,
            Error::Unsupported(m) => m@,
            Error::EmptySequence => "Cannot choose from an empty sequence"@,
            Error::StateNotFound => "State Abbreviation not found in list"@,
        }
    }

    /// The message Faker's exception carries for this error.
    pub fn message(&self) -> (r: String)
        ensures
            r@ == self.message_of(),
    {
        match self {
            Error::UnknownLocale(l) => {
                let mut s = "locale `".to_owned();
                s.append(l.as_str());
                s.append("` is not available");
                s
            },
            Error::UnknownFormatter(n) => {
                let mut s = "Unknown formatter \"".to_owned();
                s.append(n.as_str());
                s.append("\"");
                s
            },
            Error::InvalidArgument(m) => m.clone(),
            Error::Overflow(m) => m.clone(),
            Error::Parse(m) => m.clone(),
            Error::Unsupported(m) => m.clone(),
            Error::EmptySequence => "Cannot choose from an empty sequence".to_owned(),
            Error::StateNotFound => "State Abbreviation not found in list".to_owned(),
        }
    }
}

} // verus!

