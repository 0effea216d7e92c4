//! Failures of operations on a descriptor, as plain values.

use vstd::prelude::*;

verus! {

/// The category of a failed operation, as far as this library tells
/// categories apart. Every category that no decision depends on is `Other`.
#[derive(Clone, Copy, Debug, PartialEq, Eq, Hash)]
pub enum ErrorKind {
    /// The operation would have to wait; the descriptor is not ready.
    WouldBlock,
    /// The peer refused the connection.
    ConnectionRefused,
    /// The connection was aborted by the peer.
    ConnectionAborted,
    /// The connection was reset by the peer.
    ConnectionReset,
    /// An argument was malformed.
    InvalidInput,
    /// Any other failure.
    Other,
}

/// A failed operation: its category and, where the operating system
/// reported one, the raw error number.
#[derive(Clone, Copy, Debug, PartialEq, Eq, Hash)]
pub struct IoError {
    pub kind: ErrorKind,
    pub code: Option<i32>,
}

impl IoError {
    /// A failure of the given category that carries no error number.
    pub fn new(kind: ErrorKind) -> (e: Self)
        ensures
            e == (IoError { kind, code: None }),
    {
        IoError { kind, code: None }
    }

    /// A failure that the operating system reported under the number `code`.
    pub fn from_os(kind: ErrorKind, code: i32) -> (e: Self)
        ensures
            e == (IoError { kind, code: Some(code) }),
    {
        IoError { kind, code: Some(code) }
    }

    /// The category of this failure.
    pub fn kind(&self) -> (kind: ErrorKind)
        ensures
            kind == self.kind,
    {
        self.kind
    }

    /// True exactly when the operation would have had to wait.
    pub open spec fn would_block(self) -> bool {
        self.kind is WouldBlock
    }

    /// Tells whether the operation would have had to wait.
    pub fn is_would_block(&self) -> (b: bool)
        ensures
            b == self.would_block(),
    {
        match self.kind {
            ErrorKind::WouldBlock => true,
            _ => false,
        }
    }
}

} // verus!
