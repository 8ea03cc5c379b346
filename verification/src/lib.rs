//! Decentralized identity and relation protocol: personas register with home
//! servers, establish mutually signed typed relations with other personas, and
//! route application-level calls between personas through their homes.
//!
//! The crate is organised bottom-up:
//! - [`bytesutil`]: byte-sequence comparison and little-endian framing helpers;
//! - [`error`]: the protocol error taxonomy;
//! - [`identity`]: opaque identity value types (ids, keys, signatures);
//! - [`crypto`]: the signing and validation capability traits and a
//!   deterministic in-memory implementation of them;
//! - [`relation`]: half-proof creation, proof completion, canonicalization and
//!   verification of two-party relation proofs;
//! - [`profile`]: profiles, facets and peer contexts;
//! - [`channel`]: the bounded backpressure channel used by event and call
//!   streams;
//! - [`home`]: the server-side protocol state machine (hosting, sessions,
//!   pairing, call routing);
//! - [`dapp`]: client-side session orchestration and call routing;
//! - [`meta`]: the attribute metadata model.

pub mod bytesutil;
pub mod channel;
pub mod crypto;
pub mod dapp;
pub mod error;
pub mod home;
pub mod identity;
pub mod meta;
pub mod profile;
pub mod relation;

use vstd::prelude::*;

verus! {

/// Capacity of the bounded channels that deliver events and calls: a slow
/// consumer suspends the producer once this many items are buffered.
pub const CHANNEL_CAPACITY: usize = 1;

} // verus!
