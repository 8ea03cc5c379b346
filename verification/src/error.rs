//! Error taxonomy of the protocol layer.
//!
//! Cryptographic validation failures are definitive: they are never retried
//! and always surfaced. Transport-level failures surface as [`ErrorKind::Unknown`]
//! at the protocol boundary; retry-versus-terminate policy belongs to the
//! calling application.

use vstd::prelude::*;

verus! {

/// The closed set of failure conditions surfaced by the protocol layer.
#[derive(Clone, Copy, Debug, PartialEq, Eq, Structural)]
pub enum ErrorKind {
    /// A profile id was looked up and is not known here.
    LookupFailed,
    /// A half-proof was offered to a signer that is not its designated peer.
    RelationSigningFailed,
    /// A relation proof does not bind the claimed parties, or a signature in
    /// it does not verify.
    RelationValidationFailed,
    /// A profile id does not derive from the offered public key.
    ProfileValidationFailed,
    /// An id matches neither side of a relation proof.
    PeerIdRetreivalFailed,
    /// The session the operation was issued on is no longer active.
    SessionClosed,
    /// Transport-level or otherwise unclassified failure.
    Unknown,
}

} // verus!
