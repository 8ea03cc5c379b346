//! Two-party relation proofs.
//!
//! A relation between two profiles is formed in two steps: one party signs a
//! [`RelationHalfProof`] naming the relation type, itself and the peer; the
//! peer completes it into a [`RelationProof`]. The completed proof is
//! canonicalized so that `a_id < b_id` always holds, independent of which
//! party initiated: relation identity does not depend on the initiator.
//!
//! Each side's signature covers exactly the `(relation_type, signer_id,
//! peer_id)` triple as seen from that side, length-framed byte by byte; the
//! two sides sign swapped triples.

use vstd::prelude::*;

use vstd::utf8::encode_utf8;

use crate::bytesutil::{bytes_lt, lex_lt, lemma_lex_lt_trichotomy, push_bytes, push_u64_le, str_eq, u64_le};
use crate::crypto::{Signer, Validator};
use crate::error::ErrorKind;
use crate::identity::{ApplicationId, ProfileId, PublicKey, Signature};

verus! {

/// The canonical byte string one party signs: the UTF-8 bytes of the
/// relation type and the two ids, each preceded by its length as eight
/// little-endian bytes, signer first, peer second.
pub open spec fn signable_bytes(relation_type: Seq<char>, signer_id: Seq<u8>, peer_id: Seq<u8>) -> Seq<u8> {
    let relation_type_bytes = encode_utf8(relation_type);
    u64_le(relation_type_bytes.len() as u64) + relation_type_bytes + u64_le(signer_id.len() as u64)
        + signer_id + u64_le(peer_id.len() as u64) + peer_id
}

/// The triple one party signs to form or complete a relation.
#[derive(Debug)]
pub struct RelationSignablePart {
    pub relation_type: String,
    pub signer_id: ProfileId,
    pub peer_id: ProfileId,
}

impl RelationSignablePart {
    /// Assembles the signable triple.
    pub fn new(relation_type: &str, signer_id: &ProfileId, peer_id: &ProfileId) -> (r: Self)
        ensures
            r.relation_type@ == relation_type@,
            r.signer_id@ == signer_id@,
            r.peer_id@ == peer_id@,
    {
        RelationSignablePart {
            relation_type: relation_type.to_owned(),
            signer_id: signer_id.clone(),
            peer_id: peer_id.clone(),
        }
    }

    /// The signable triple of a half-proof: its own fields, signature left
    /// aside.
    pub fn from_half_proof(half_proof: &RelationHalfProof) -> (r: Self)
        ensures
            r.relation_type@ == half_proof.relation_type@,
            r.signer_id@ == half_proof.signer_id@,
            r.peer_id@ == half_proof.peer_id@,
    {
        RelationSignablePart {
            relation_type: half_proof.relation_type.clone(),
            signer_id: half_proof.signer_id.clone(),
            peer_id: half_proof.peer_id.clone(),
        }
    }

    /// The length-framed byte string this triple is signed as.
    pub fn serialized(&self) -> (r: Vec<u8>)
        ensures
            r@ == signable_bytes(self.relation_type@, self.signer_id@, self.peer_id@),
    {
        let relation_type_bytes = self.relation_type.as_str().as_bytes();
        let mut out: Vec<u8> = Vec::new();
        push_u64_le(&mut out, relation_type_bytes.len() as u64);
        push_bytes(&mut out, relation_type_bytes);
        push_u64_le(&mut out, self.signer_id.0.len() as u64);
        push_bytes(&mut out, self.signer_id.0.as_slice());
        push_u64_le(&mut out, self.peer_id.0.len() as u64);
        push_bytes(&mut out, self.peer_id.0.as_slice());
        proof {
            assert(out@ =~= signable_bytes(self.relation_type@, self.signer_id@, self.peer_id@));
        }
        out
    }

    /// Signs this triple with the given signer.
    pub fn sign<S: Signer>(&self, signer: &S) -> (s: Signature)
        ensures
            s@ == signer.sig_of(signable_bytes(self.relation_type@, self.signer_id@, self.peer_id@)),
    {
        let serialized = self.serialized();
        signer.sign(serialized.as_slice())
    }
}

/// The mathematical value of a [`RelationHalfProof`].
#[verifier::ext_equal]
pub struct RelationHalfProofV {
    pub relation_type: Seq<char>,
    pub signer_id: Seq<u8>,
    pub peer_id: Seq<u8>,
    pub signature: Seq<u8>,
}

/// One party's signed intent to form a relation with a peer; consumed when
/// the peer completes it into a [`RelationProof`].
#[derive(Debug)]
pub struct RelationHalfProof {
    pub relation_type: String,
    pub signer_id: ProfileId,
    pub peer_id: ProfileId,
    pub signature: Signature,
}

impl View for RelationHalfProof {
    type V = RelationHalfProofV;

    open spec fn view(&self) -> RelationHalfProofV {
        RelationHalfProofV {
            relation_type: self.relation_type@,
            signer_id: self.signer_id@,
            peer_id: self.peer_id@,
            signature: self.signature@,
        }
    }
}

/// The byte string whose signature a half-proof carries: the signable bytes
/// of its own triple.
pub open spec fn half_proof_signable(half_proof: RelationHalfProofV) -> Seq<u8> {
    signable_bytes(half_proof.relation_type, half_proof.signer_id, half_proof.peer_id)
}

impl Clone for RelationHalfProof {
    fn clone(&self) -> (res: Self)
        ensures
            res@ == self@,
    {
        RelationHalfProof {
            relation_type: self.relation_type.clone(),
            signer_id: self.signer_id.clone(),
            peer_id: self.peer_id.clone(),
            signature: self.signature.clone(),
        }
    }
}

impl PartialEq for RelationHalfProof {
    fn eq(&self, other: &Self) -> (r: bool) {
        let r = str_eq(self.relation_type.as_str(), other.relation_type.as_str()) && self.signer_id
            == other.signer_id && self.peer_id == other.peer_id && self.signature
            == other.signature;
        proof {
            if r {
                assert(self@ =~= other@);
            }
        }
        r
    }
}

impl vstd::std_specs::cmp::PartialEqSpecImpl for RelationHalfProof {
    open spec fn obeys_eq_spec() -> bool {
        true
    }

    open spec fn eq_spec(&self, other: &Self) -> bool {
        self@ == other@
    }
}

impl RelationHalfProof {
    /// Signs the intent to form a `relation_type` relation with `peer_id`.
    pub fn new<S: Signer>(relation_type: &str, peer_id: &ProfileId, signer: &S) -> (r: Self)
        ensures
            r@ == (RelationHalfProofV {
                relation_type: relation_type@,
                signer_id: signer.id(),
                peer_id: peer_id@,
                signature: signer.sig_of(signable_bytes(relation_type@, signer.id(), peer_id@)),
            }),
    {
        let signer_id = signer.profile_id().clone();
        let signable = RelationSignablePart::new(relation_type, &signer_id, peer_id);
        let signature = signable.sign(signer);
        let r = RelationHalfProof {
            relation_type: relation_type.to_owned(),
            signer_id,
            peer_id: peer_id.clone(),
            signature,
        };
        proof {
            assert(r@ =~= RelationHalfProofV {
                relation_type: relation_type@,
                signer_id: signer.id(),
                peer_id: peer_id@,
                signature: signer.sig_of(signable_bytes(relation_type@, signer.id(), peer_id@)),
            });
        }
        r
    }
}

/// The mathematical value of a [`RelationProof`].
#[verifier::ext_equal]
pub struct RelationProofV {
    pub relation_type: Seq<char>,
    pub a_id: Seq<u8>,
    pub a_signature: Seq<u8>,
    pub b_id: Seq<u8>,
    pub b_signature: Seq<u8>,
}

/// The canonical form a completed proof takes: the smaller id becomes `a_id`,
/// and each signature travels with its id.
pub open spec fn canonical_proof(
    relation_type: Seq<char>,
    id_x: Seq<u8>,
    sig_x: Seq<u8>,
    id_y: Seq<u8>,
    sig_y: Seq<u8>,
) -> RelationProofV {
    if lex_lt(id_x, id_y) {
        RelationProofV {
            relation_type,
            a_id: id_x,
            a_signature: sig_x,
            b_id: id_y,
            b_signature: sig_y,
        }
    } else {
        RelationProofV {
            relation_type,
            a_id: id_y,
            a_signature: sig_y,
            b_id: id_x,
            b_signature: sig_x,
        }
    }
}

/// The canonical proof that completing `half_proof` with `signer` yields:
/// the initiator's half joined with the completer's countersignature over
/// the swapped triple.
pub open spec fn completion_of<S: Signer>(half_proof: RelationHalfProofV, signer: S) -> RelationProofV {
    canonical_proof(
        half_proof.relation_type,
        half_proof.signer_id,
        half_proof.signature,
        signer.id(),
        signer.sig_of(signable_bytes(half_proof.relation_type, signer.id(), half_proof.signer_id)),
    )
}

/// Whether `id` is one of the two sides of `proof`.
pub open spec fn proof_has_side(proof: RelationProofV, id: Seq<u8>) -> bool {
    proof.a_id == id || proof.b_id == id
}

/// The id of the other side, for an `my_id` that is a side of `proof`; the
/// `a` side is preferred where both match.
pub open spec fn peer_view(proof: RelationProofV, my_id: Seq<u8>) -> Seq<u8> {
    if proof.a_id == my_id {
        proof.b_id
    } else {
        proof.a_id
    }
}

/// The signature of the other side, for an `my_id` that is a side of `proof`.
pub open spec fn peer_signature_view(proof: RelationProofV, my_id: Seq<u8>) -> Seq<u8> {
    if proof.a_id == my_id {
        proof.b_signature
    } else {
        proof.a_signature
    }
}

/// Mutually signed evidence of an agreed typed relationship between two
/// profiles, canonicalized so that `a_id` is lexicographically smaller than
/// `b_id` however the proof was constructed.
#[derive(Debug)]
pub struct RelationProof {
    pub relation_type: String,
    pub a_id: ProfileId,
    pub a_signature: Signature,
    pub b_id: ProfileId,
    pub b_signature: Signature,
}

impl View for RelationProof {
    type V = RelationProofV;

    open spec fn view(&self) -> RelationProofV {
        RelationProofV {
            relation_type: self.relation_type@,
            a_id: self.a_id@,
            a_signature: self.a_signature@,
            b_id: self.b_id@,
            b_signature: self.b_signature@,
        }
    }
}

impl Clone for RelationProof {
    fn clone(&self) -> (res: Self)
        ensures
            res@ == self@,
    {
        let res = RelationProof {
            relation_type: self.relation_type.clone(),
            a_id: self.a_id.clone(),
            a_signature: self.a_signature.clone(),
            b_id: self.b_id.clone(),
            b_signature: self.b_signature.clone(),
        };
        proof {
            assert(res@ =~= self@);
        }
        res
    }
}

impl PartialEq for RelationProof {
    fn eq(&self, other: &Self) -> (r: bool) {
        let r = str_eq(self.relation_type.as_str(), other.relation_type.as_str()) && self.a_id
            == other.a_id && self.a_signature == other.a_signature && self.b_id == other.b_id
            && self.b_signature == other.b_signature;
        proof {
            if r {
                assert(self@ =~= other@);
            }
        }
        r
    }
}

impl vstd::std_specs::cmp::PartialEqSpecImpl for RelationProof {
    open spec fn obeys_eq_spec() -> bool {
        true
    }

    open spec fn eq_spec(&self, other: &Self) -> bool {
        self@ == other@
    }
}

impl RelationProof {
    /// The relation type that makes a profile hosted on a home.
    pub fn relation_type_hosted_on_home() -> (r: &'static str)
        ensures
            r@ == "hosted_on_home"@,
    {
        "hosted_on_home"
    }

    /// The relation type that authorizes calls between two personas.
    pub fn relation_type_enable_calls_between() -> (r: &'static str)
        ensures
            r@ == "enable_call_between"@,
    {
        "enable_call_between"
    }

    /// Builds the canonical proof from the two signed halves, in either
    /// order.
    pub fn new(
        relation_type: &str,
        a_id: &ProfileId,
        a_signature: &Signature,
        b_id: &ProfileId,
        b_signature: &Signature,
    ) -> (r: Self)
        ensures
            r@ == canonical_proof(relation_type@, a_id@, a_signature@, b_id@, b_signature@),
    {
        let r = if bytes_lt(a_id.0.as_slice(), b_id.0.as_slice()) {
            RelationProof {
                relation_type: relation_type.to_owned(),
                a_id: a_id.clone(),
                a_signature: a_signature.clone(),
                b_id: b_id.clone(),
                b_signature: b_signature.clone(),
            }
        } else {
            RelationProof {
                relation_type: relation_type.to_owned(),
                a_id: b_id.clone(),
                a_signature: b_signature.clone(),
                b_id: a_id.clone(),
                b_signature: a_signature.clone(),
            }
        };
        proof {
            assert(r@ =~= canonical_proof(relation_type@, a_id@, a_signature@, b_id@, b_signature@));
        }
        r
    }

    /// Completes a half-proof: succeeds exactly when the signer is the
    /// designated peer, countersigning the swapped triple; fails with
    /// [`ErrorKind::RelationSigningFailed`] otherwise.
    pub fn sign_remaining_half<S: Signer>(half_proof: &RelationHalfProof, signer: &S) -> (r: Result<
        Self,
        ErrorKind,
    >)
        ensures
            r is Ok <==> half_proof.peer_id@ == signer.id(),
            r matches Err(e) ==> e == ErrorKind::RelationSigningFailed,
            r matches Ok(proof) ==> proof@ == completion_of(half_proof@, *signer),
    {
        let my_profile_id = signer.profile_id().clone();
        if !(half_proof.peer_id == my_profile_id) {
            return Err(ErrorKind::RelationSigningFailed);
        }
        let signable = RelationSignablePart::new(
            half_proof.relation_type.as_str(),
            &my_profile_id,
            &half_proof.signer_id,
        );
        let my_signature = signable.sign(signer);
        Ok(
            Self::new(
                half_proof.relation_type.as_str(),
                &half_proof.signer_id,
                &half_proof.signature,
                &my_profile_id,
                &my_signature,
            ),
        )
    }

    /// A relation authorizes an application exactly when its relation type
    /// equals the application id.
    pub fn accessible_by(&self, app: &ApplicationId) -> (r: bool)
        ensures
            r == (self.relation_type@ == app@),
    {
        self.relation_type == app.0
    }

    /// The id of the other side; fails with
    /// [`ErrorKind::PeerIdRetreivalFailed`] when `my_id` matches neither
    /// side.
    pub fn peer_id(&self, my_id: &ProfileId) -> (r: Result<&ProfileId, ErrorKind>)
        ensures
            r is Ok <==> proof_has_side(self@, my_id@),
            r matches Ok(peer) ==> peer@ == peer_view(self@, my_id@),
            r matches Err(e) ==> e == ErrorKind::PeerIdRetreivalFailed,
    {
        if self.a_id == *my_id {
            return Ok(&self.b_id);
        }
        if self.b_id == *my_id {
            return Ok(&self.a_id);
        }
        Err(ErrorKind::PeerIdRetreivalFailed)
    }

    /// The signature of the other side; fails with
    /// [`ErrorKind::PeerIdRetreivalFailed`] when `my_id` matches neither
    /// side.
    pub fn peer_signature(&self, my_id: &ProfileId) -> (r: Result<&Signature, ErrorKind>)
        ensures
            r is Ok <==> proof_has_side(self@, my_id@),
            r matches Ok(sig) ==> sig@ == peer_signature_view(self@, my_id@),
            r matches Err(e) ==> e == ErrorKind::PeerIdRetreivalFailed,
    {
        if self.a_id == *my_id {
            return Ok(&self.b_signature);
        }
        if self.b_id == *my_id {
            return Ok(&self.a_signature);
        }
        Err(ErrorKind::PeerIdRetreivalFailed)
    }
}

/// The byte string the canonical `a` side signed: `a` as signer, `b` as
/// peer.
pub open spec fn signable_a(proof: RelationProofV) -> Seq<u8> {
    signable_bytes(proof.relation_type, proof.a_id, proof.b_id)
}

/// The byte string the canonical `b` side signed: `b` as signer, `a` as
/// peer.
pub open spec fn signable_b(proof: RelationProofV) -> Seq<u8> {
    signable_bytes(proof.relation_type, proof.b_id, proof.a_id)
}

/// What validating a relation proof against two claimed (id, key) pairs
/// returns: `RelationValidationFailed` where the proof does not bind
/// exactly the claimed pair — `id_1` is no side of the proof, or the other
/// side is not `id_2` — or where either side's signature does not verify
/// against the signable bytes seen from that side; `Ok` only when both
/// parties genuinely signed their own direction. The one failure kind makes
/// validation symmetric in the two pairs.
pub open spec fn validate_relation_proof_spec<V: Validator>(
    validator: V,
    proof: RelationProofV,
    id_1: Seq<u8>,
    key_1: Seq<u8>,
    id_2: Seq<u8>,
    key_2: Seq<u8>,
) -> Result<(), ErrorKind> {
    if !proof_has_side(proof, id_1) {
        Err(ErrorKind::RelationValidationFailed)
    } else if peer_view(proof, id_1) != id_2 {
        Err(ErrorKind::RelationValidationFailed)
    } else if peer_view(proof, id_1) == proof.b_id {
        // id_1 occupies the canonical `a` side
        if validator.sig_ok(key_1, signable_a(proof), proof.a_signature) && validator.sig_ok(
            key_2,
            signable_b(proof),
            proof.b_signature,
        ) {
            Ok(())
        } else {
            Err(ErrorKind::RelationValidationFailed)
        }
    } else {
        // id_1 occupies the canonical `b` side
        if validator.sig_ok(key_1, signable_b(proof), proof.b_signature) && validator.sig_ok(
            key_2,
            signable_a(proof),
            proof.a_signature,
        ) {
            Ok(())
        } else {
            Err(ErrorKind::RelationValidationFailed)
        }
    }
}

/// Checks that a half-proof's signature verifies under the signer's public
/// key; fails with [`ErrorKind::RelationValidationFailed`] otherwise.
pub fn validate_half_proof<V: Validator>(
    validator: &V,
    half_proof: &RelationHalfProof,
    signer_public_key: &PublicKey,
) -> (r: Result<(), ErrorKind>)
    ensures
        r is Ok <==> validator.sig_ok(
            signer_public_key@,
            half_proof_signable(half_proof@),
            half_proof.signature@,
        ),
        r matches Err(e) ==> e == ErrorKind::RelationValidationFailed,
{
    let signable = RelationSignablePart::from_half_proof(half_proof);
    let serialized = signable.serialized();
    if validator.validate_signature(signer_public_key, serialized.as_slice(), &half_proof.signature) {
        Ok(())
    } else {
        Err(ErrorKind::RelationValidationFailed)
    }
}

/// Validates a relation proof against the two claimed (id, key) pairs; both
/// signatures must verify, each against the signable bytes seen from its own
/// side.
pub fn validate_relation_proof<V: Validator>(
    validator: &V,
    relation_proof: &RelationProof,
    id_1: &ProfileId,
    public_key_1: &PublicKey,
    id_2: &ProfileId,
    public_key_2: &PublicKey,
) -> (r: Result<(), ErrorKind>)
    ensures
        r == validate_relation_proof_spec(
            *validator,
            relation_proof@,
            id_1@,
            public_key_1@,
            id_2@,
            public_key_2@,
        ),
{
    let signable_part_a = RelationSignablePart::new(
        relation_proof.relation_type.as_str(),
        &relation_proof.a_id,
        &relation_proof.b_id,
    ).serialized();
    let signable_part_b = RelationSignablePart::new(
        relation_proof.relation_type.as_str(),
        &relation_proof.b_id,
        &relation_proof.a_id,
    ).serialized();

    let peer_of_id_1 = match relation_proof.peer_id(id_1) {
        Ok(peer) => peer,
        Err(_) => {
            // a proof binding neither claimed pair fails validation
            return Err(ErrorKind::RelationValidationFailed);
        },
    };
    if !(*peer_of_id_1 == *id_2) {
        return Err(ErrorKind::RelationValidationFailed);
    }

    if *peer_of_id_1 == relation_proof.b_id {
        // id_1 is the canonical `a` side
        if !validator.validate_signature(
            public_key_1,
            signable_part_a.as_slice(),
            &relation_proof.a_signature,
        ) {
            return Err(ErrorKind::RelationValidationFailed);
        }
        if !validator.validate_signature(
            public_key_2,
            signable_part_b.as_slice(),
            &relation_proof.b_signature,
        ) {
            return Err(ErrorKind::RelationValidationFailed);
        }
    } else {
        // id_1 is the canonical `b` side
        if !validator.validate_signature(
            public_key_1,
            signable_part_b.as_slice(),
            &relation_proof.b_signature,
        ) {
            return Err(ErrorKind::RelationValidationFailed);
        }
        if !validator.validate_signature(
            public_key_2,
            signable_part_a.as_slice(),
            &relation_proof.a_signature,
        ) {
            return Err(ErrorKind::RelationValidationFailed);
        }
    }
    Ok(())
}

/// Constructing a proof from the same signed halves in either argument order
/// yields the identical canonical proof; its `a_id` is the lexicographically
/// smaller id, so `a_id` comes strictly before `b_id`.
pub proof fn lemma_canonical_proof_order_independent(
    relation_type: Seq<char>,
    id_x: Seq<u8>,
    sig_x: Seq<u8>,
    id_y: Seq<u8>,
    sig_y: Seq<u8>,
)
    requires
        id_x != id_y,
    ensures
        canonical_proof(relation_type, id_x, sig_x, id_y, sig_y) == canonical_proof(
            relation_type,
            id_y,
            sig_y,
            id_x,
            sig_x,
        ),
        canonical_proof(relation_type, id_x, sig_x, id_y, sig_y).a_id == if lex_lt(id_x, id_y) {
            id_x
        } else {
            id_y
        },
        lex_lt(
            canonical_proof(relation_type, id_x, sig_x, id_y, sig_y).a_id,
            canonical_proof(relation_type, id_x, sig_x, id_y, sig_y).b_id,
        ),
{
    lemma_lex_lt_trichotomy(id_x, id_y);
    assert(canonical_proof(relation_type, id_x, sig_x, id_y, sig_y) =~= canonical_proof(
        relation_type,
        id_y,
        sig_y,
        id_x,
        sig_x,
    ));
}

/// Validation is symmetric in the two (id, key) pairs, for proofs between
/// two distinct parties: swapping the argument pairs yields the same
/// result, error kind included.
pub proof fn lemma_validate_relation_proof_symmetric<V: Validator>(
    validator: V,
    proof: RelationProofV,
    id_1: Seq<u8>,
    key_1: Seq<u8>,
    id_2: Seq<u8>,
    key_2: Seq<u8>,
)
    requires
        proof.a_id != proof.b_id,
    ensures
        validate_relation_proof_spec(validator, proof, id_1, key_1, id_2, key_2)
            == validate_relation_proof_spec(validator, proof, id_2, key_2, id_1, key_1),
{
}

/// The full pairing round trip validates: where one party signs a
/// half-proof for a peer and the peer completes it, the canonical proof
/// validates with both parties' keys, in either argument order, under any
/// validator that recognizes both parties' signatures.
pub proof fn lemma_round_trip_validates<SA: Signer, SB: Signer, V: Validator>(
    relation_type: Seq<char>,
    initiator: SA,
    acceptor: SB,
    validator: V,
)
    requires
        initiator.id() != acceptor.id(),
        forall|data: Seq<u8>|
            validator.sig_ok(initiator.key(), data, #[trigger] initiator.sig_of(data)),
        forall|data: Seq<u8>|
            validator.sig_ok(acceptor.key(), data, #[trigger] acceptor.sig_of(data)),
    ensures
        ({
            let half_proof = RelationHalfProofV {
                relation_type,
                signer_id: initiator.id(),
                peer_id: acceptor.id(),
                signature: initiator.sig_of(
                    signable_bytes(relation_type, initiator.id(), acceptor.id()),
                ),
            };
            let completed = completion_of(half_proof, acceptor);
            &&& validate_relation_proof_spec(
                validator,
                completed,
                initiator.id(),
                initiator.key(),
                acceptor.id(),
                acceptor.key(),
            ) is Ok
            &&& validate_relation_proof_spec(
                validator,
                completed,
                acceptor.id(),
                acceptor.key(),
                initiator.id(),
                initiator.key(),
            ) is Ok
        }),
{
    lemma_lex_lt_trichotomy(initiator.id(), acceptor.id());
}

/// Completing a half-proof yields a proof whose completer-side signature
/// verifies against the canonical signable bytes of that side, under any
/// validator that recognizes the completer's signatures.
pub proof fn lemma_completion_signature_verifies<S: Signer, V: Validator>(
    half_proof: RelationHalfProofV,
    signer: S,
    validator: V,
)
    requires
        half_proof.peer_id == signer.id(),
        half_proof.signer_id != signer.id(),
        forall|data: Seq<u8>| validator.sig_ok(signer.key(), data, #[trigger] signer.sig_of(data)),
    ensures
        ({
            let completed = canonical_proof(
                half_proof.relation_type,
                half_proof.signer_id,
                half_proof.signature,
                signer.id(),
                signer.sig_of(
                    signable_bytes(half_proof.relation_type, signer.id(), half_proof.signer_id),
                ),
            );
            validator.sig_ok(
                signer.key(),
                signable_bytes(half_proof.relation_type, signer.id(), half_proof.signer_id),
                peer_signature_view(completed, half_proof.signer_id),
            )
        }),
{
    lemma_lex_lt_trichotomy(half_proof.signer_id, signer.id());
}

} // verus!
