//! The error taxonomy shared by every command handler.

use vstd::prelude::*;

verus! {

/// One failure of a relay command. Every handler maps its first failure into
/// one of these and returns immediately; nothing is retried.
#[derive(Debug, PartialEq, Eq)]
pub enum RelayError {
    /// The given path has no parent directory.
    PathError,
    /// A file-system read, write or directory creation failed; the carried
    /// string is the underlying system error text.
    IOError(String),
    /// The configuration file's content is not valid JSON; the carried string
    /// is the parser's error text.
    ParseError(String),
    /// The external compiler exited with a non-zero status; the carried
    /// string embeds its captured stderr.
    SubprocessError(String),
    /// The external compiler's stdout was not valid UTF-8.
    EncodingError(String),
}

impl RelayError {
    /// The plain message handed to the application shell for this failure.
    pub open spec fn message_spec(self) -> Seq<char> {
        match self {
            RelayError::PathError => "Failed to get parent directory"@,
            RelayError::IOError(m) => m@,
            RelayError::ParseError(m) => m@,
            RelayError::SubprocessError(m) => m@,
            RelayError::EncodingError(m) => m@,
        }
    }

    /// Renders the failure as the plain string the application shell shows.
    pub fn message(&self) -> (r: String)
        ensures
            r@ == self.message_spec(),
    {
        match self {
            RelayError::PathError => String::from_str("Failed to get parent directory"),
            RelayError::IOError(m) => m.clone(),
            RelayError::ParseError(m) => m.clone(),
            RelayError::SubprocessError(m) => m.clone(),
            RelayError::EncodingError(m) => m.clone(),
        }
    }
}

} // verus!
