use mercury_protocol::channel::{RecvOutcome, SendOutcome};
use mercury_protocol::crypto::{PlainSigner, PlainValidator, Signer};
use mercury_protocol::error::ErrorKind;
use mercury_protocol::home::{HomeServer, HomeSession, ProfileEvent};
use mercury_protocol::identity::{AppMessageFrame, ApplicationId, PublicKey};
use mercury_protocol::profile::{OwnProfile, PersonaFacet, Profile, ProfileFacet};
use mercury_protocol::relation::{RelationHalfProof, RelationProof};

type Home = HomeServer<PlainSigner, PlainValidator>;

fn new_home(key: &[u8]) -> Home {
    HomeServer::new(PlainSigner::new(PublicKey(key.to_vec())), PlainValidator {})
}

fn persona(key: &[u8]) -> (PlainSigner, OwnProfile) {
    let signer = PlainSigner::new(PublicKey(key.to_vec()));
    let facet = ProfileFacet::Persona(PersonaFacet { homes: Vec::new(), data: Vec::new() });
    let profile = Profile::new(signer.profile_id(), signer.public_key(), &facet);
    let own = OwnProfile::new(&profile, b"private payload");
    (signer, own)
}

fn register(home: &mut Home, signer: &PlainSigner, own: OwnProfile) -> OwnProfile {
    let half = RelationHalfProof::new("hosted_on_home", home.profile_id(), signer);
    home.register(own, half, None).expect("registration should be accepted")
}

fn hosting_proof(own: &OwnProfile) -> RelationProof {
    match &own.profile.facet {
        ProfileFacet::Persona(facet) => facet.homes[0].clone(),
        _ => panic!("registered profile must keep its persona facet"),
    }
}

fn login(home: &mut Home, own: &OwnProfile) -> HomeSession {
    home.login(&hosting_proof(own)).expect("login with the hosting proof should succeed")
}

#[test]
fn test_register_login_ping_round_trip() {
    let mut home = new_home(b"home-key");
    let (signer, own) = persona(b"alice-key");
    let registered = register(&mut home, &signer, own);
    let session = login(&mut home, &registered);
    let pong = home.ping(&session, "dummy_ping").unwrap();
    assert_eq!(pong, "dummy_ping");
}

#[test]
fn test_register_rejects_bad_input_and_returns_profile() {
    let mut home = new_home(b"home-key");
    let other_home = new_home(b"other-home-key");
    let (signer, own) = persona(b"alice-key");

    // a half-proof naming another home as peer is refused
    let wrong_peer = RelationHalfProof::new("hosted_on_home", other_home.profile_id(), &signer);
    let (returned, kind) = home.register(own, wrong_peer, None).unwrap_err();
    assert_eq!(kind, ErrorKind::RelationValidationFailed);
    assert_eq!(returned.priv_data, b"private payload".to_vec());

    // a half-proof of the wrong relation type is refused
    let wrong_type = RelationHalfProof::new("enable_call_between", home.profile_id(), &signer);
    let (returned, kind) = home.register(returned, wrong_type, None).unwrap_err();
    assert_eq!(kind, ErrorKind::RelationValidationFailed);

    // a profile whose id does not derive from its key is refused
    let fake = Profile::new(
        signer.profile_id(),
        &PublicKey(b"not-alices-key".to_vec()),
        &returned.profile.facet,
    );
    let fake_own = OwnProfile::new(&fake, b"");
    let half = RelationHalfProof::new("hosted_on_home", home.profile_id(), &signer);
    let (_, kind) = home.register(fake_own, half, None).unwrap_err();
    assert_eq!(kind, ErrorKind::ProfileValidationFailed);

    // the unmodified profile can be registered with identical data
    let half = RelationHalfProof::new("hosted_on_home", home.profile_id(), &signer);
    assert!(home.register(returned, half, None).is_ok());
}

#[test]
fn test_claim_returns_stored_profile() {
    let mut home = new_home(b"home-key");
    let (signer, own) = persona(b"alice-key");
    let registered = register(&mut home, &signer, own);
    let claimed = home.claim(signer.profile_id(), signer.profile_id().clone()).unwrap();
    assert_eq!(claimed.priv_data, registered.priv_data);
    assert_eq!(claimed.profile.id, registered.profile.id);

    // a stranger cannot claim alice's profile over its own connection
    let (stranger, _) = persona(b"mallory-key");
    assert_eq!(
        home.claim(stranger.profile_id(), signer.profile_id().clone()).unwrap_err(),
        ErrorKind::ProfileValidationFailed
    );

    // the stranger's own profile is simply not hosted here
    assert_eq!(
        home.claim(stranger.profile_id(), stranger.profile_id().clone()).unwrap_err(),
        ErrorKind::LookupFailed
    );
}

#[test]
fn test_new_login_supersedes_prior_session() {
    let mut home = new_home(b"home-key");
    let (signer, own) = persona(b"alice-key");
    let registered = register(&mut home, &signer, own);

    let first = login(&mut home, &registered);
    assert!(home.ping(&first, "one").is_ok());

    // a second login silently terminates the first session
    let second = login(&mut home, &registered);
    assert_eq!(home.ping(&first, "one").unwrap_err(), ErrorKind::SessionClosed);
    assert_eq!(home.ping(&second, "two").unwrap(), "two");

    // a terminated session never becomes active again
    let third = login(&mut home, &registered);
    assert_eq!(home.ping(&first, "one").unwrap_err(), ErrorKind::SessionClosed);
    assert_eq!(home.ping(&second, "two").unwrap_err(), ErrorKind::SessionClosed);
    assert_eq!(home.ping(&third, "three").unwrap(), "three");
}

#[test]
fn test_login_rejects_bad_proofs() {
    let mut home = new_home(b"home-key");
    let (alice, alice_own) = persona(b"alice-key");
    let (bob, bob_own) = persona(b"bob-key");
    let alice_registered = register(&mut home, &alice, alice_own);

    // a proof of the wrong relation type does not authenticate
    let call_half = RelationHalfProof::new("enable_call_between", alice.profile_id(), &bob);
    let call_proof = RelationProof::sign_remaining_half(&call_half, &alice).unwrap();
    assert_eq!(home.login(&call_proof).unwrap_err(), ErrorKind::RelationValidationFailed);

    // a hosting proof of an unhosted persona finds nobody
    let (stranger, _) = persona(b"mallory-key");
    let stray_half = RelationHalfProof::new("hosted_on_home", home.profile_id(), &stranger);
    let stray_proof = RelationProof::sign_remaining_half(&stray_half, &home.signer).unwrap();
    assert_eq!(home.login(&stray_proof).unwrap_err(), ErrorKind::LookupFailed);

    // a fabricated hosting proof differing from the stored one is refused
    let forged_half = RelationHalfProof::new("hosted_on_home", home.profile_id(), &alice);
    let mut forged = RelationProof::sign_remaining_half(&forged_half, &home.signer).unwrap();
    forged.a_signature.0.push(0);
    forged.b_signature.0.push(0);
    assert_eq!(home.login(&forged).unwrap_err(), ErrorKind::RelationValidationFailed);

    // the genuine stored proof still works
    assert!(home.login(&hosting_proof(&alice_registered)).is_ok());
    let _ = bob_own;
}

#[test]
fn test_unregister_ends_hosting() {
    let mut home = new_home(b"home-key");
    let (signer, own) = persona(b"alice-key");
    let registered = register(&mut home, &signer, own);
    let session = login(&mut home, &registered);
    home.unregister(&session, None).unwrap();
    assert_eq!(
        home.claim(signer.profile_id(), signer.profile_id().clone()).unwrap_err(),
        ErrorKind::LookupFailed
    );
    assert_eq!(home.ping(&session, "gone").unwrap_err(), ErrorKind::SessionClosed);
}

#[test]
fn test_update_keeps_stored_hosting_proofs() {
    let mut home = new_home(b"home-key");
    let (signer, own) = persona(b"alice-key");
    let registered = register(&mut home, &signer, own);
    let session = login(&mut home, &registered);

    // push a modified profile whose facet names no homes at all
    let bare_facet = ProfileFacet::Persona(PersonaFacet {
        homes: Vec::new(),
        data: b"new persona data".to_vec(),
    });
    let modified = Profile::new(signer.profile_id(), signer.public_key(), &bare_facet);
    home.update(&session, OwnProfile::new(&modified, b"new payload")).unwrap();

    // the stored hosting proof is not discarded by the update
    let stored = home.claim(signer.profile_id(), signer.profile_id().clone()).unwrap();
    match &stored.profile.facet {
        ProfileFacet::Persona(facet) => {
            assert_eq!(facet.homes.len(), 1);
            assert_eq!(facet.homes[0], hosting_proof(&registered));
            assert_eq!(facet.data, b"new persona data".to_vec());
        }
        _ => panic!("stored profile must keep its persona facet"),
    }
    assert_eq!(stored.priv_data, b"new payload".to_vec());
}

#[test]
fn test_pairing_events_arrive_in_order() {
    let mut home = new_home(b"home-key");
    let (alice, alice_own) = persona(b"alice-key");
    let (bob, bob_own) = persona(b"bob-key");
    let alice_registered = register(&mut home, &alice, alice_own);
    register(&mut home, &bob, bob_own);

    // bob asks to pair while alice is offline: the event is queued
    let half = RelationHalfProof::new("enable_call_between", alice.profile_id(), &bob);
    home.pair_request(half.clone()).unwrap();

    // alice completes it and bob's home forwards the response toward alice;
    // here both live on the same home, so a second event queues for alice
    let completed = RelationProof::sign_remaining_half(&half, &alice).unwrap();
    home.pair_response(bob.profile_id(), completed.clone()).unwrap();

    let session = login(&mut home, &alice_registered);
    match home.events_next(&session).unwrap() {
        Some(ProfileEvent::PairingRequest(received)) => assert_eq!(received, half),
        other => panic!("expected the pairing request first, got {:?}", other),
    }
    match home.events_next(&session).unwrap() {
        Some(ProfileEvent::PairingResponse(received)) => assert_eq!(received, completed),
        other => panic!("expected the pairing response second, got {:?}", other),
    }
    assert!(home.events_next(&session).unwrap().is_none());
}

#[test]
fn test_pair_request_needs_hosted_peer() {
    let mut home = new_home(b"home-key");
    let (bob, _) = persona(b"bob-key");
    let (stranger, _) = persona(b"mallory-key");
    let half = RelationHalfProof::new("enable_call_between", stranger.profile_id(), &bob);
    assert_eq!(home.pair_request(half).unwrap_err(), ErrorKind::LookupFailed);
}

fn paired_relation(alice: &PlainSigner, bob: &PlainSigner) -> RelationProof {
    let half = RelationHalfProof::new("enable_call_between", bob.profile_id(), alice);
    RelationProof::sign_remaining_half(&half, bob).unwrap()
}

#[test]
fn test_missed_call_is_none_not_an_error() {
    let mut home = new_home(b"home-key");
    let (alice, alice_own) = persona(b"alice-key");
    let (bob, bob_own) = persona(b"bob-key");
    register(&mut home, &alice, alice_own);
    register(&mut home, &bob, bob_own);
    let relation = paired_relation(&alice, &bob);
    let app = ApplicationId("enable_call_between".to_string());

    // bob is not even logged in: a defined missed-call outcome, not an error
    let request = mercury_protocol::home::CallRequestDetails {
        relation: relation.clone(),
        init_payload: AppMessageFrame(b"hi".to_vec()),
        to_caller: None,
    };
    let outcome = home.call(alice.profile_id(), &app, request).unwrap();
    assert!(outcome.is_none());

    // logged in but not checked in for the application: still a missed call
    let bob_registered = home.claim(bob.profile_id(), bob.profile_id().clone()).unwrap();
    let _bob_session = login(&mut home, &bob_registered);
    let request = mercury_protocol::home::CallRequestDetails {
        relation: relation.clone(),
        init_payload: AppMessageFrame(b"hi".to_vec()),
        to_caller: None,
    };
    let outcome = home.call(alice.profile_id(), &app, request).unwrap();
    assert!(outcome.is_none());
}

#[test]
fn test_call_rejected_without_authorizing_relation() {
    let mut home = new_home(b"home-key");
    let (alice, alice_own) = persona(b"alice-key");
    let (bob, bob_own) = persona(b"bob-key");
    register(&mut home, &alice, alice_own);
    register(&mut home, &bob, bob_own);
    let relation = paired_relation(&alice, &bob);

    // the relation's type does not name this application: rejected, not missed
    let app = ApplicationId("iop-chat".to_string());
    let request = mercury_protocol::home::CallRequestDetails {
        relation,
        init_payload: AppMessageFrame(Vec::new()),
        to_caller: None,
    };
    assert_eq!(
        home.call(alice.profile_id(), &app, request).unwrap_err(),
        ErrorKind::RelationValidationFailed
    );
}

#[test]
fn test_call_answer_and_message_round_trip() {
    let mut home = new_home(b"home-key");
    let (alice, alice_own) = persona(b"alice-key");
    let (bob, bob_own) = persona(b"bob-key");
    register(&mut home, &alice, alice_own);
    let bob_registered = register(&mut home, &bob, bob_own);
    let relation = paired_relation(&alice, &bob);
    let app = ApplicationId("enable_call_between".to_string());

    // bob checks in for the application
    let bob_session = login(&mut home, &bob_registered);
    home.checkin_app(&bob_session, &app).unwrap();

    // alice calls with a reverse channel toward herself
    let to_caller = home.open_channel();
    let request = mercury_protocol::home::CallRequestDetails {
        relation,
        init_payload: AppMessageFrame(b"ring ring".to_vec()),
        to_caller: Some(to_caller),
    };
    let call_id = home.call(alice.profile_id(), &app, request).unwrap().unwrap();

    // nothing is answered yet
    assert!(home.call_response(call_id).unwrap().is_none());

    // bob receives the call from his check-in stream and inspects it first
    let incoming = home.incoming_next(&bob_session, &app).unwrap().unwrap();
    let details = incoming.request_details(&home).unwrap();
    assert_eq!(details.init_payload, AppMessageFrame(b"ring ring".to_vec()));
    let reverse = details.to_caller.unwrap();

    // bob answers, offering a channel toward himself
    let to_callee = home.open_channel();
    let answered = incoming.answer(&mut home, Some(to_callee)).unwrap();
    assert_eq!(answered.init_payload, AppMessageFrame(b"ring ring".to_vec()));

    // the caller sees the answer and both directions carry frames in order
    let outgoing = home.call_response(call_id).unwrap().unwrap().unwrap();
    assert_eq!(outgoing, to_callee);
    assert_eq!(
        home.channel_send(outgoing, AppMessageFrame(b"hello bob".to_vec())).unwrap(),
        SendOutcome::Sent
    );
    match home.channel_recv(to_callee).unwrap() {
        RecvOutcome::Item(frame) => assert_eq!(frame, AppMessageFrame(b"hello bob".to_vec())),
        other => panic!("expected the caller's frame, got {:?}", other),
    }
    assert_eq!(
        home.channel_send(reverse, AppMessageFrame(b"hello alice".to_vec())).unwrap(),
        SendOutcome::Sent
    );
    match home.channel_recv(to_caller).unwrap() {
        RecvOutcome::Item(frame) => assert_eq!(frame, AppMessageFrame(b"hello alice".to_vec())),
        other => panic!("expected the callee's frame, got {:?}", other),
    }
}
