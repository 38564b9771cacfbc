//! Shared result/error vocabulary used by every capability operation.

use vstd::prelude::*;

verus! {

/// Closed taxonomy of failure categories reported across the module boundary.
#[derive(Clone, Copy, Debug, PartialEq, Eq, Structural)]
pub enum ErrorKind {
    /// The module is unavailable or has not been initialized.
    ModuleUnavailable,
    /// A malformed blob, buffer, or property set was handed in.
    InvalidInput,
    /// The key the operation depends on is absent or was never activated.
    KeyNotFound,
    /// Policy refuses to release the requested key material.
    ExportDenied,
    /// Signing, encryption, or decryption failed inside the module.
    CryptoFailure,
    /// An opaque failure reported by the underlying module.
    ModuleFailure,
}

/// Error carried by every fallible capability operation: exactly one kind,
/// never suppressed or downgraded on the way to the caller.
#[derive(Clone, Copy, Debug, PartialEq, Eq, Structural)]
pub struct Error {
    kind: ErrorKind,
}

impl Error {
    /// The failure category this error classifies.
    pub closed spec fn kind_spec(&self) -> ErrorKind {
        self.kind
    }

    pub fn new(kind: ErrorKind) -> (e: Error)
        ensures
            e.kind_spec() == kind,
    {
        Error { kind }
    }

    pub fn kind(&self) -> (k: ErrorKind)
        ensures
            k == self.kind_spec(),
    {
        self.kind
    }
}

} // verus!
