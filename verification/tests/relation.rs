use mercury_protocol::crypto::{PlainSigner, PlainValidator, Signer};
use mercury_protocol::error::ErrorKind;
use mercury_protocol::identity::{ApplicationId, ProfileId, PublicKey};
use mercury_protocol::relation::{
    validate_half_proof, validate_relation_proof, RelationHalfProof, RelationProof,
};

fn signer(key: &[u8]) -> PlainSigner {
    PlainSigner::new(PublicKey(key.to_vec()))
}

#[test]
fn test_something() {}

#[test]
fn test_proof_construction_is_order_independent() {
    let alice = signer(b"alice-key");
    let bob = signer(b"bob-key");
    let half = RelationHalfProof::new("enable_call_between", bob.profile_id(), &alice);
    let alice_signature = half.signature.clone();
    let bob_signature = bob.sign(b"other half");

    let one = RelationProof::new(
        "enable_call_between",
        alice.profile_id(),
        &alice_signature,
        bob.profile_id(),
        &bob_signature,
    );
    let other = RelationProof::new(
        "enable_call_between",
        bob.profile_id(),
        &bob_signature,
        alice.profile_id(),
        &alice_signature,
    );
    assert_eq!(one, other);

    // the canonical `a` side carries the smaller id, its own signature with it
    assert!(one.a_id.0 < one.b_id.0);
    let smaller = if alice.profile_id().0 < bob.profile_id().0 { &alice } else { &bob };
    assert_eq!(one.a_id, smaller.profile_id().clone());
}

#[test]
fn test_completion_fails_for_wrong_signer() {
    let alice = signer(b"alice-key");
    let bob = signer(b"bob-key");
    let carol = signer(b"carol-key");
    let half = RelationHalfProof::new("enable_call_between", bob.profile_id(), &alice);

    // only the designated peer can complete the half-proof
    let wrong = RelationProof::sign_remaining_half(&half, &carol);
    assert_eq!(wrong.unwrap_err(), ErrorKind::RelationSigningFailed);
    let wrong_self = RelationProof::sign_remaining_half(&half, &alice);
    assert_eq!(wrong_self.unwrap_err(), ErrorKind::RelationSigningFailed);
    assert!(RelationProof::sign_remaining_half(&half, &bob).is_ok());
}

#[test]
fn test_half_proof_signature_validates() {
    let alice = signer(b"alice-key");
    let bob = signer(b"bob-key");
    let validator = PlainValidator {};
    let half = RelationHalfProof::new("enable_call_between", bob.profile_id(), &alice);
    assert!(validate_half_proof(&validator, &half, alice.public_key()).is_ok());
    // a signature by anyone else does not pass
    assert_eq!(
        validate_half_proof(&validator, &half, bob.public_key()).unwrap_err(),
        ErrorKind::RelationValidationFailed
    );
}

#[test]
fn test_round_trip_pairing_validates() {
    let alice = signer(b"alice-key");
    let bob = signer(b"bob-key");
    let carol = signer(b"carol-key");
    let validator = PlainValidator {};

    let half = RelationHalfProof::new("enable_call_between", bob.profile_id(), &alice);
    let proof = RelationProof::sign_remaining_half(&half, &bob).unwrap();

    // both parties validate the completed proof with the correct keys
    assert!(validate_relation_proof(
        &validator,
        &proof,
        alice.profile_id(),
        alice.public_key(),
        bob.profile_id(),
        bob.public_key(),
    )
    .is_ok());
    assert!(validate_relation_proof(
        &validator,
        &proof,
        bob.profile_id(),
        bob.public_key(),
        alice.profile_id(),
        alice.public_key(),
    )
    .is_ok());

    // swapping either id for an unrelated third id fails validation
    assert_eq!(
        validate_relation_proof(
            &validator,
            &proof,
            alice.profile_id(),
            alice.public_key(),
            carol.profile_id(),
            carol.public_key(),
        )
        .unwrap_err(),
        ErrorKind::RelationValidationFailed
    );
    assert_eq!(
        validate_relation_proof(
            &validator,
            &proof,
            carol.profile_id(),
            carol.public_key(),
            bob.profile_id(),
            bob.public_key(),
        )
        .unwrap_err(),
        ErrorKind::RelationValidationFailed
    );
}

#[test]
fn test_validation_is_symmetric() {
    let alice = signer(b"alice-key");
    let bob = signer(b"bob-key");
    let carol = signer(b"carol-key");
    let validator = PlainValidator {};
    let half = RelationHalfProof::new("enable_call_between", bob.profile_id(), &alice);
    let proof = RelationProof::sign_remaining_half(&half, &bob).unwrap();

    let pairs = [
        (&alice, &bob),
        (&bob, &alice),
        (&alice, &carol),
        (&carol, &alice),
        (&carol, &carol),
    ];
    for (first, second) in pairs {
        let one = validate_relation_proof(
            &validator,
            &proof,
            first.profile_id(),
            first.public_key(),
            second.profile_id(),
            second.public_key(),
        );
        let other = validate_relation_proof(
            &validator,
            &proof,
            second.profile_id(),
            second.public_key(),
            first.profile_id(),
            first.public_key(),
        );
        assert_eq!(one, other);
    }
}

#[test]
fn test_peer_id_and_signature_lookup() {
    let alice = signer(b"alice-key");
    let bob = signer(b"bob-key");
    let carol = signer(b"carol-key");
    let half = RelationHalfProof::new("enable_call_between", bob.profile_id(), &alice);
    let proof = RelationProof::sign_remaining_half(&half, &bob).unwrap();

    assert_eq!(proof.peer_id(alice.profile_id()).unwrap(), bob.profile_id());
    assert_eq!(proof.peer_id(bob.profile_id()).unwrap(), alice.profile_id());
    assert_eq!(
        proof.peer_id(carol.profile_id()).unwrap_err(),
        ErrorKind::PeerIdRetreivalFailed
    );

    let alice_is_a = proof.a_id == *alice.profile_id();
    let (a_sig, b_sig) = (&proof.a_signature, &proof.b_signature);
    let expected_for_alice = if alice_is_a { b_sig } else { a_sig };
    assert_eq!(proof.peer_signature(alice.profile_id()).unwrap(), expected_for_alice);
    assert_eq!(
        proof.peer_signature(carol.profile_id()).unwrap_err(),
        ErrorKind::PeerIdRetreivalFailed
    );
}

#[test]
fn test_accessible_by_is_flat_type_equality() {
    let alice = signer(b"alice-key");
    let bob = signer(b"bob-key");
    let half = RelationHalfProof::new("enable_call_between", bob.profile_id(), &alice);
    let proof = RelationProof::sign_remaining_half(&half, &bob).unwrap();

    assert!(proof.accessible_by(&ApplicationId("enable_call_between".to_string())));
    assert!(!proof.accessible_by(&ApplicationId("enable_call".to_string())));
    assert!(!proof.accessible_by(&ApplicationId("iop-chat".to_string())));
}

#[test]
fn test_signable_bytes_match_length_framed_encoding() {
    let signer_id = ProfileId(vec![1, 2, 3]);
    let peer_id = ProfileId(vec![9, 8]);
    let part = mercury_protocol::relation::RelationSignablePart::new(
        "hosted_on_home",
        &signer_id,
        &peer_id,
    );
    let serialized = part.serialized();

    let reference: (String, Vec<u8>, Vec<u8>) =
        ("hosted_on_home".to_string(), vec![1, 2, 3], vec![9, 8]);
    let encoded = bincode::serialize(&reference).unwrap();
    assert_eq!(serialized, encoded);
}
