//! Errors of network operations.

use vstd::prelude::*;
use vstd::string::StringExecFns;

verus! {

#[verifier::external_type_specification]
#[verifier::external_body]
pub struct ExIoError(std::io::Error);

/// Calls `<std::io::Error as ToString>::to_string`.
///
/// What the text says depends on the error's kind and, for errors of the operating system, on
/// the system's own message for the code, so nothing is stated of it.
#[verifier::external_body]
fn io_error_text(error: &std::io::Error) -> String {
    error.to_string()
}

/// A specialized [`Result`](std::result::Result) type for network operations.
pub type Result<T> = std::result::Result<T, Error>;

/// Errors of network operations.
#[derive(Debug)]
pub enum Error {
    /// An operation failed unexpectedly, for the given reason.
    Failure(&'static str),
    /// An I/O operation failed.
    Io(std::io::Error),
}

/// The text that describes a failure with the given reason.
pub open spec fn failure_text(reason: Seq<char>) -> Seq<char> {
    "operation failed unexpectedly: "@ + reason
}

impl Error {
    /// Describes the error in words.
    ///
    /// A failure reads `operation failed unexpectedly: ` followed by its reason; an I/O error
    /// reads as the I/O error itself.
    pub fn to_string(&self) -> (text: String)
        ensures
            self matches Error::Failure(reason) ==> text@ == failure_text(reason@),
    {
        match self {
            Error::Failure(reason) => {
                let mut text = String::from_str("operation failed unexpectedly: ");
                text.append(reason);
                text
            },
            Error::Io(error) => io_error_text(error),
        }
    }
}

impl From<std::io::Error> for Error {
    fn from(error: std::io::Error) -> (converted: Self) {
        Error::Io(error)
    }
}

impl vstd::std_specs::convert::FromSpecImpl<std::io::Error> for Error {
    open spec fn obeys_from_spec() -> bool {
        true
    }

    open spec fn from_spec(error: std::io::Error) -> Self {
        Error::Io(error)
    }
}

} // verus!
