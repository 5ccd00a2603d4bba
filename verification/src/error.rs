//! Errors surfaced by the core.

use vstd::prelude::*;

verus! {

/// The kind of an error surfaced by the core.
#[derive(Debug, Clone, Copy, PartialEq, Eq, Structural, Hash)]
pub enum ErrorKind {
    /// An invariant precondition was violated by the caller (for example a
    /// snapshot below the current log head). The caller should not retry
    /// with the same inputs.
    InconsistentState,
    /// A single-flight slot is already occupied. The caller may retry later.
    Busy,
    /// Forwarded from the I/O backend, neither retried nor hidden.
    Io,
}

/// An error surfaced to the caller of a core method.
#[derive(Debug, Clone, Copy, PartialEq, Eq, Structural, Hash)]
pub struct Error {
    pub kind: ErrorKind,
}

impl Error {
    /// Builds an error of the given kind.
    pub fn new(kind: ErrorKind) -> (e: Error)
        ensures
            e.kind == kind,
    {
        Error { kind }
    }

    /// The kind of this error.
    pub fn kind(&self) -> (k: ErrorKind)
        ensures
            k == self.kind,
    {
        self.kind
    }
}

} // verus!
