//! Failures of the codec: the executable `Error`, and the `Failure` that
//! contracts use to say which error a function owes on which input.

use vstd::prelude::*;

verus! {

/// What went wrong, with a message for the person who supplied the input.
#[derive(Debug, Clone, PartialEq)]
pub enum Error {
    /// The URL, or the label in its host, is malformed.
    InvalidXorUrl(String),
    /// An argument breaks a rule of the value object.
    InvalidInput(String),
    /// The media type is not in the registry.
    InvalidMediaType(String),
    /// A state that construction rules out was met all the same.
    Unexpected(String),
}

/// The four classes of failure, without their message.
#[derive(Debug, Clone, Copy, PartialEq, Eq, Structural)]
pub enum ErrorKind {
    InvalidXorUrl,
    InvalidInput,
    InvalidMediaType,
    Unexpected,
}

/// The failure that a contract promises: its class and its message.
///
/// Where `detail_follows` holds, `text` is only the beginning of the message:
/// the rest is the wording of an error of another crate, of which nothing is
/// claimed.
pub struct Failure {
    pub kind: ErrorKind,
    pub text: Seq<char>,
    pub detail_follows: bool,
}

/// A failure whose whole message is `text`.
pub open spec fn failure(kind: ErrorKind, text: Seq<char>) -> Failure {
    Failure { kind, text, detail_follows: false }
}

/// A failure whose message begins with `text` and goes on with the words of
/// another crate's error.
pub open spec fn failure_with_detail(kind: ErrorKind, text: Seq<char>) -> Failure {
    Failure { kind, text, detail_follows: true }
}

impl Error {
    /// The class of this error.
    pub open spec fn kind(&self) -> ErrorKind {
        match self {
            Error::InvalidXorUrl(_) => ErrorKind::InvalidXorUrl,
            Error::InvalidInput(_) => ErrorKind::InvalidInput,
            Error::InvalidMediaType(_) => ErrorKind::InvalidMediaType,
            Error::Unexpected(_) => ErrorKind::Unexpected,
        }
    }

    /// The message of this error.
    pub open spec fn text(&self) -> Seq<char> {
        match self {
            Error::InvalidXorUrl(m) => m@,
            Error::InvalidInput(m) => m@,
            Error::InvalidMediaType(m) => m@,
            Error::Unexpected(m) => m@,
        }
    }

    /// This error is the one that `f` describes.
    pub open spec fn reports(&self, f: Failure) -> bool {
        &&& self.kind() == f.kind
        &&& if f.detail_follows {
            f.text.is_prefix_of(self.text())
        } else {
            self.text() == f.text
        }
    }

    /// The message, as the caller may show it.
    pub fn message(&self) -> (r: &str)
        ensures
            r@ == self.text(),
    {
        match self {
            Error::InvalidXorUrl(m) => m.as_str(),
            Error::InvalidInput(m) => m.as_str(),
            Error::InvalidMediaType(m) => m.as_str(),
            Error::Unexpected(m) => m.as_str(),
        }
    }

    /// The class, as a value the caller can match on.
    pub fn class(&self) -> (r: ErrorKind)
        ensures
            r == self.kind(),
    {
        match self {
            Error::InvalidXorUrl(_) => ErrorKind::InvalidXorUrl,
            Error::InvalidInput(_) => ErrorKind::InvalidInput,
            Error::InvalidMediaType(_) => ErrorKind::InvalidMediaType,
            Error::Unexpected(_) => ErrorKind::Unexpected,
        }
    }
}

/// The result `r` is the one that `expected` describes: the same value on
/// success, the promised error on failure.
pub open spec fn agrees<T: View>(r: Result<T, Error>, expected: Result<T::V, Failure>) -> bool {
    match (r, expected) {
        (Ok(x), Ok(v)) => x@ == v,
        (Err(e), Err(f)) => e.reports(f),
        _ => false,
    }
}

} // verus!
