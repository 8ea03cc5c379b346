//! Signing and validation capabilities.
//!
//! Protocol code never holds raw private key material: it works through the
//! [`Signer`] capability, which can sign but cannot reveal its key, and the
//! [`Validator`] capability, which checks signatures and checks that a
//! profile id derives from a public key. Hardware-backed implementations and
//! test doubles satisfy the same contracts.
//!
//! [`PlainSigner`] and [`PlainValidator`] are the deterministic in-memory
//! pair used by tests and by in-process wiring; they derive profile ids with
//! real SHA-256 multihashes but use a transparent tag scheme, not
//! cryptography, for signatures.

use vstd::prelude::*;

use sha2::Digest;

use crate::bytesutil::{clone_bytes, push_bytes};
use crate::identity::{ProfileId, PublicKey, Signature};

verus! {

/// The SHA-256 digest of a byte string.
pub uninterp spec fn sha256_digest(data: Seq<u8>) -> Seq<u8>;

/// Relies on `sha2::Sha256`: SHA-256 is a pure function of its input, and
/// its digest is 32 bytes long.
#[verifier::external_body]
fn sha256(data: &[u8]) -> (r: Vec<u8>)
    ensures
        r@ == sha256_digest(data@),
        r@.len() == 32,
{
    sha2::Sha256::digest(data).to_vec()
}

/// The profile id a public key derives to: the SHA-256 multihash of the key,
/// that is the digest with the multihash prefix `0x12` (SHA2-256) and `0x20`
/// (32-byte digest).
pub open spec fn profile_id_of_key(key: Seq<u8>) -> Seq<u8> {
    seq![0x12u8, 0x20u8] + sha256_digest(key)
}

/// Derives the profile id of a public key.
pub fn profile_id_from_key(key: &PublicKey) -> (r: ProfileId)
    ensures
        r@ == profile_id_of_key(key@),
{
    let digest = sha256(key.0.as_slice());
    let mut bytes: Vec<u8> = Vec::new();
    bytes.push(0x12u8);
    bytes.push(0x20u8);
    push_bytes(&mut bytes, digest.as_slice());
    proof {
        assert(bytes@ =~= profile_id_of_key(key@));
    }
    ProfileId(bytes)
}

/// Something that can sign data in the name of one profile, but cannot give
/// out the private key.
pub trait Signer {
    /// The id of the profile this capability signs for.
    spec fn id(&self) -> Seq<u8>;

    /// The public key of that profile.
    spec fn key(&self) -> Seq<u8>;

    /// The signature this capability gives to a byte string; signing is
    /// deterministic in the data.
    spec fn sig_of(&self, data: Seq<u8>) -> Seq<u8>;

    /// The id of the profile this capability signs for.
    fn profile_id(&self) -> (r: &ProfileId)
        ensures
            r@ == self.id(),
    ;

    /// The public key of that profile.
    fn public_key(&self) -> (r: &PublicKey)
        ensures
            r@ == self.key(),
    ;

    /// Signs `data`.
    fn sign(&self, data: &[u8]) -> (s: Signature)
        ensures
            s@ == self.sig_of(data@),
    ;
}

/// Checks detached signatures against public keys.
pub trait SignatureValidator {
    /// Whether `sig` is a valid signature by the holder of `key` over `data`.
    spec fn sig_ok(&self, key: Seq<u8>, data: Seq<u8>, sig: Seq<u8>) -> bool;

    /// Whether `signature` is valid under `public_key` for `data`.
    fn validate_signature(&self, public_key: &PublicKey, data: &[u8], signature: &Signature) -> (r:
        bool)
        ensures
            r == self.sig_ok(public_key@, data@, signature@),
    ;
}

/// Checks that profile ids derive from public keys.
pub trait ProfileValidator {
    /// Whether `id` is the id that `key` derives to.
    spec fn id_ok(&self, key: Seq<u8>, id: Seq<u8>) -> bool;

    /// Whether `profile_id` derives from `public_key`.
    fn validate_profile(&self, public_key: &PublicKey, profile_id: &ProfileId) -> (r: bool)
        ensures
            r == self.id_ok(public_key@, profile_id@),
    ;
}

/// The full validation capability the protocol layer works through.
pub trait Validator: ProfileValidator + SignatureValidator {

}

/// A deterministic in-memory [`Signer`]: profile ids are real SHA-256
/// multihashes of the public key, and a signature is the public key followed
/// by the signed data — a transparent tag scheme for tests and in-process
/// wiring, not cryptography.
#[derive(Debug)]
pub struct PlainSigner {
    pub profile_id: ProfileId,
    pub public_key: PublicKey,
}

impl PlainSigner {
    /// A signer for the profile that `public_key` derives to.
    pub fn new(public_key: PublicKey) -> (r: Self)
        ensures
            r.key() == public_key@,
            r.id() == profile_id_of_key(public_key@),
    {
        let profile_id = profile_id_from_key(&public_key);
        PlainSigner { profile_id, public_key }
    }
}

impl Signer for PlainSigner {
    open spec fn id(&self) -> Seq<u8> {
        self.profile_id@
    }

    open spec fn key(&self) -> Seq<u8> {
        self.public_key@
    }

    open spec fn sig_of(&self, data: Seq<u8>) -> Seq<u8> {
        self.public_key@ + data
    }

    fn profile_id(&self) -> (r: &ProfileId) {
        &self.profile_id
    }

    fn public_key(&self) -> (r: &PublicKey) {
        &self.public_key
    }

    fn sign(&self, data: &[u8]) -> (s: Signature) {
        let mut bytes = clone_bytes(&self.public_key.0);
        push_bytes(&mut bytes, data);
        Signature(bytes)
    }
}

/// The [`Validator`] matching [`PlainSigner`]: accepts exactly the signatures
/// a [`PlainSigner`] with the same public key produces, and checks profile
/// ids against real SHA-256 multihashes.
#[derive(Clone, Copy, Debug)]
pub struct PlainValidator {

}

impl SignatureValidator for PlainValidator {
    open spec fn sig_ok(&self, key: Seq<u8>, data: Seq<u8>, sig: Seq<u8>) -> bool {
        sig == key + data
    }

    fn validate_signature(&self, public_key: &PublicKey, data: &[u8], signature: &Signature) -> (r:
        bool) {
        let mut expected = clone_bytes(&public_key.0);
        push_bytes(&mut expected, data);
        crate::bytesutil::bytes_eq(signature.0.as_slice(), expected.as_slice())
    }
}

impl ProfileValidator for PlainValidator {
    open spec fn id_ok(&self, key: Seq<u8>, id: Seq<u8>) -> bool {
        id == profile_id_of_key(key)
    }

    fn validate_profile(&self, public_key: &PublicKey, profile_id: &ProfileId) -> (r: bool) {
        let expected = profile_id_from_key(public_key);
        crate::bytesutil::bytes_eq(profile_id.0.as_slice(), expected.0.as_slice())
    }
}

impl Validator for PlainValidator {

}

} // verus!
