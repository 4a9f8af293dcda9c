//! Result type for mesh I/O operations.

use vstd::prelude::*;

verus! {

/// OpenMesh I/O Error.
#[derive(Clone, Copy, PartialEq, Eq, Structural, Debug)]
pub enum Error {
    /// Unsupported functionality.
    Unsupported,
    /// Unexpected end of the input.
    UnexpectedEOF,
    /// String exceeds 64Kb.
    StringExceeds64k,
    /// Invalid UTF-8.
    FromUtf8,
    /// An I/O error, of the given kind.
    Io(IoError),
}

/// The kind of an I/O error.
#[derive(Clone, Copy, PartialEq, Eq, Structural, Debug)]
pub enum IoError {
    /// The bytes read for a string are not valid UTF-8.
    InvalidUtf8,
    /// The input ended before what was to be read.
    UnexpectedEof,
    /// Any other failure to read or write.
    Other,
}

/// OpenMesh I/O Result.
pub type Result<T> = core::result::Result<T, Error>;

impl Error {
    /// A description of the error.
    pub fn description(&self) -> (s: &'static str)
        ensures
            s@ == error_description(*self)@,
    {
        match self {
            Error::Unsupported => "Unsupported functionality",
            Error::UnexpectedEOF => "Unexpected EOF",
            Error::StringExceeds64k => "Cannot store string longer than 64Kb",
            Error::FromUtf8 => "Invalid UTF-8",
            Error::Io(IoError::InvalidUtf8) => "stream did not contain valid UTF-8",
            Error::Io(IoError::UnexpectedEof) => "unexpected end of file",
            Error::Io(IoError::Other) => "other error",
        }
    }
}

/// The description text of each error.
pub open spec fn error_description(e: Error) -> &'static str {
    match e {
        Error::Unsupported => "Unsupported functionality",
        Error::UnexpectedEOF => "Unexpected EOF",
        Error::StringExceeds64k => "Cannot store string longer than 64Kb",
        Error::FromUtf8 => "Invalid UTF-8",
        Error::Io(IoError::InvalidUtf8) => "stream did not contain valid UTF-8",
        Error::Io(IoError::UnexpectedEof) => "unexpected end of file",
        Error::Io(IoError::Other) => "other error",
    }
}

}
