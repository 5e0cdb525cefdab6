//! Errors reported by the host runtime.

use vstd::prelude::*;

verus! {

/// Describes different kinds of errors.
#[derive(Debug)]
pub enum ErrorKind {
    /// A storage backend could not establish its connection, prepare or
    /// execute a statement, or decode a result column.
    Database,
    /// The extension path does not exist, is not a directory, a module failed
    /// to load, or a module does not export the required entry symbol.
    PluginError,
    /// An underlying filesystem operation failed; carries the native
    /// failure's description.
    IoError(String),
    /// The registry's mutual-exclusion lock could not be acquired.
    LockError,
}

/// An error with a kind and a human-readable message.
#[derive(Debug)]
pub struct Error {
    /// The kind of error.
    pub kind: ErrorKind,
    /// A message describing the error.
    pub message: String,
}

impl Error {
    /// Create a new error of the given kind.
    pub fn new(kind: ErrorKind, message: String) -> (e: Error)
        ensures
            e.kind == kind,
            e.message == message,
    {
        Error { kind, message }
    }
}

} // verus!
