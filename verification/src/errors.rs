//! Typed failures of the classification pipeline.

use vstd::prelude::*;

verus! {

/// What went wrong during one invocation.
#[derive(Clone, Copy, Debug, PartialEq, Eq, Structural)]
pub enum ErrorKind {
    /// The input file handed to the classifier does not exist.
    InputNotFound,
    /// The classification script is missing from the backend directory.
    ScriptNotFound,
    /// The child process could not be spawned at all, every candidate tried.
    LaunchFailed,
    /// The child ran but exited with a non-zero status.
    ScriptFailed,
    /// The child produced no usable output.
    ParseFailed,
}

/// A terminal, message-bearing failure: a kind plus the text that explains
/// it (a path, a spawn error, the child's standard-error text).
#[derive(Clone, Debug)]
pub struct InvocationError {
    pub kind: ErrorKind,
    pub detail: String,
}

impl InvocationError {
    /// Builds an error from its parts.
    pub fn new(kind: ErrorKind, detail: String) -> (e: Self)
        ensures
            e.kind == kind,
            e.detail == detail,
    {
        InvocationError { kind, detail }
    }
}

} // verus!
