//! The closed error taxonomy of the library.
use vstd::prelude::*;
use vstd::string::StringExecFns;

verus! {

/// Every failure of a wrapper operation is one of these.
#[derive(Debug, Clone, PartialEq)]
pub enum Error {
    /// The engine returned its invalid-handle sentinel when creating a resource.
    InvalidHandle,
    /// The caller broke an operation's contract (for example the wrong object kind).
    InvalidParameter,
    /// The engine rejected a request; the text names the operation.
    OperationFailed(String),
    /// Enqueueing a file failed.
    FileError(String),
    /// The engine handed back no data where data was expected.
    NullPointer,
    /// A text argument holds a NUL character, which the engine's strings cannot carry.
    InvalidString,
}

impl Error {
    /// The engine rejected the named operation.
    pub fn failed(what: &str) -> (r: Error)
        ensures
            r is OperationFailed,
            r->OperationFailed_0@ == what@,
    {
        Error::OperationFailed(String::from_str(what))
    }

    /// Enqueueing a file failed.
    pub fn file(what: &str) -> (r: Error)
        ensures
            r is FileError,
            r->FileError_0@ == what@,
    {
        Error::FileError(String::from_str(what))
    }
}

} // verus!
