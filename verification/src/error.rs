//! The ways in which a single operation can fail.

use vstd::prelude::*;

verus! {

/// Why an operation was refused. Every failure aborts the one call that met it
/// and leaves the state as it was.
#[derive(Clone, Copy, Debug, PartialEq, Eq, Structural)]
pub enum Error {
    /// The signature is not exactly 65 bytes long.
    InvalidSignatureLength,
    /// The first 64 bytes are not a compact signature within the curve order.
    MalformedSignature,
    /// The recovery indicator does not normalize to 0 or 1.
    InvalidRecoveryId,
    /// No public key can be recovered from the signature.
    RecoveryFailed,
    /// The caller is the anonymous identity.
    Unauthenticated,
    /// The caller has no address on file.
    NotAuthenticated,
    /// The key-derivation service could not be reached or answered badly.
    DelegationFailed,
}

} // verus!
