use sha2::Digest;

use mercury_protocol::crypto::{profile_id_from_key, PlainSigner, PlainValidator, ProfileValidator, Signer};
use mercury_protocol::identity::{ProfileId, PublicKey};

#[test]
fn test_profile_id_is_sha2_multihash_of_key() {
    let key = PublicKey(b"alice-key".to_vec());
    let id = profile_id_from_key(&key);

    // the multihash prefix names SHA2-256 and a 32-byte digest...
    assert_eq!(id.0.len(), 34);
    assert_eq!(id.0[0], 0x12);
    assert_eq!(id.0[1], 0x20);

    // ...and the digest is the real SHA-256 of the key, not the key itself
    let digest = sha2::Sha256::digest(b"alice-key");
    assert_eq!(&id.0[2..], digest.as_slice());
    assert_ne!(&id.0[2..], b"alice-key".as_slice());
}

#[test]
fn test_signer_id_derives_from_its_key() {
    let signer = PlainSigner::new(PublicKey(b"alice-key".to_vec()));
    let validator = PlainValidator {};
    assert!(validator.validate_profile(signer.public_key(), signer.profile_id()));

    // a foreign id does not validate against the key
    let other = PlainSigner::new(PublicKey(b"bob-key".to_vec()));
    assert!(!validator.validate_profile(signer.public_key(), other.profile_id()));
}

#[test]
fn test_profile_id_text_round_trip() {
    let id = profile_id_from_key(&PublicKey(b"alice-key".to_vec()));
    let text = id.to_text();

    // the multibase text form is URL-safe base-64, not the raw bytes
    assert!(text.starts_with('u'));
    assert_ne!(text.as_bytes(), id.0.as_slice());

    let decoded = ProfileId::from_text(&text).unwrap();
    assert_eq!(decoded, id);

    // a reference multibase encoding decodes to the same id
    let reference = multibase::encode(multibase::Base::Base64Url, &id.0);
    assert_eq!(reference, text);

    // text that is no multibase encoding is rejected
    assert!(ProfileId::from_text("!!!").is_err());
    assert!(ProfileId::from_text("").is_err());
}
