//! The failures that the query core reports to its caller.

use vstd::prelude::*;

verus! {

/// The kind of a failure, without its message.
#[derive(Clone, Copy, Debug, PartialEq, Eq, Structural)]
pub enum ErrorKind {
    /// A required variant or value of the wire format is absent.
    Decode,
    /// A model or a field of that name does not exist in the schema.
    NotFound,
    /// The input is malformed or asks for something that is not supported.
    InvalidInput,
}

/// A failure together with a message for the caller.
#[derive(Debug, PartialEq, Eq)]
pub enum Error {
    DecodeError(String),
    NotFound(String),
    InvalidInput(String),
}

impl Error {
    /// The kind of this failure.
    pub open spec fn spec_kind(&self) -> ErrorKind {
        match self {
            Error::DecodeError(_) => ErrorKind::Decode,
            Error::NotFound(_) => ErrorKind::NotFound,
            Error::InvalidInput(_) => ErrorKind::InvalidInput,
        }
    }

    /// The message of this failure.
    pub open spec fn spec_message(&self) -> Seq<char> {
        match self {
            Error::DecodeError(m) => m@,
            Error::NotFound(m) => m@,
            Error::InvalidInput(m) => m@,
        }
    }

    #[verifier::when_used_as_spec(spec_kind)]
    pub fn kind(&self) -> (k: ErrorKind)
        ensures
            k == self.spec_kind(),
    {
        match self {
            Error::DecodeError(_) => ErrorKind::Decode,
            Error::NotFound(_) => ErrorKind::NotFound,
            Error::InvalidInput(_) => ErrorKind::InvalidInput,
        }
    }

    pub fn message(&self) -> (m: &str)
        ensures
            m@ == self.spec_message(),
    {
        match self {
            Error::DecodeError(m) => m.as_str(),
            Error::NotFound(m) => m.as_str(),
            Error::InvalidInput(m) => m.as_str(),
        }
    }
}

} // verus!
