use mercury_protocol::channel::{RecvOutcome, SendOutcome};
use mercury_protocol::crypto::{PlainSigner, PlainValidator, Signer};
use mercury_protocol::dapp::{DAppConnect, DAppEvent, ProfileRepo, SimpleProfileRepo};
use mercury_protocol::error::ErrorKind;
use mercury_protocol::home::{HomeServer, ProfileEvent};
use mercury_protocol::identity::{AppMessageFrame, ApplicationId, PublicKey};
use mercury_protocol::profile::{OwnProfile, PersonaFacet, Profile, ProfileFacet};
use mercury_protocol::relation::{RelationHalfProof, RelationProof};

type Home = HomeServer<PlainSigner, PlainValidator>;

fn new_home(key: &[u8]) -> Home {
    HomeServer::new(PlainSigner::new(PublicKey(key.to_vec())), PlainValidator {})
}

fn persona(key: &[u8]) -> (PlainSigner, OwnProfile) {
    let signer = PlainSigner::new(PublicKey(key.to_vec()));
    let facet = ProfileFacet::Persona(PersonaFacet { homes: Vec::new(), data: Vec::new() });
    let profile = Profile::new(signer.profile_id(), signer.public_key(), &facet);
    let own = OwnProfile::new(&profile, b"");
    (signer, own)
}

fn register(home: &mut Home, signer: &PlainSigner, own: OwnProfile) -> OwnProfile {
    let half = RelationHalfProof::new("hosted_on_home", home.profile_id(), signer);
    home.register(own, half, None).expect("registration should be accepted")
}

fn hosting_proof(own: &OwnProfile) -> RelationProof {
    match &own.profile.facet {
        ProfileFacet::Persona(facet) => facet.homes[0].clone(),
        _ => panic!("registered profile must keep its persona facet"),
    }
}

fn call_relation(alice: &PlainSigner, bob: &PlainSigner) -> RelationProof {
    let half = RelationHalfProof::new("enable_call_between", bob.profile_id(), alice);
    RelationProof::sign_remaining_half(&half, bob).unwrap()
}

#[test]
fn test_dapp_call_requires_local_relation() {
    let mut home = new_home(b"home-key");
    let (alice, alice_own) = persona(b"alice-key");
    let (bob, bob_own) = persona(b"bob-key");
    register(&mut home, &alice, alice_own);
    register(&mut home, &bob, bob_own);

    // no relation with bob among the contacts: refused before anything
    // reaches the home
    let app = ApplicationId("enable_call_between".to_string());
    let connect = DAppConnect::new(alice, app, Vec::new());
    let outcome = connect.call(&mut home, bob.profile_id(), AppMessageFrame(Vec::new()));
    assert_eq!(outcome.unwrap_err(), ErrorKind::Unknown);

    // the home saw neither a call nor a channel
    assert_eq!(home.call_response(0).unwrap_err(), ErrorKind::LookupFailed);
    assert_eq!(
        home.channel_send(0, AppMessageFrame(Vec::new())).unwrap_err(),
        ErrorKind::LookupFailed
    );
}

#[test]
fn test_dapp_end_to_end_call() {
    let mut home = new_home(b"home-key");
    let (alice, alice_own) = persona(b"alice-key");
    let (bob, bob_own) = persona(b"bob-key");
    register(&mut home, &alice, alice_own);
    let bob_registered = register(&mut home, &bob, bob_own);
    let relation = call_relation(&alice, &bob);
    let app = ApplicationId("enable_call_between".to_string());

    // bob's side: login and check in for the application
    let bob_proof = hosting_proof(&bob_registered);
    let mut bob_connect = DAppConnect::new(bob, app.clone(), vec![relation.clone()]);
    bob_connect.login(&mut home, &bob_proof).unwrap();
    bob_connect.checkin(&mut home).unwrap();

    // alice's side: the relation authorizes the call
    let alice_connect = DAppConnect::new(alice, app, vec![relation]);
    let bob_id = bob_connect.selected_profile().clone();
    let ringing = alice_connect
        .call(&mut home, &bob_id, AppMessageFrame(b"ring ring".to_vec()))
        .unwrap();

    // the call rings until bob answers
    assert!(alice_connect.call_outcome(&home, &ringing).unwrap().is_none());

    let incoming = match bob_connect.checkin_next(&mut home).unwrap() {
        Some(DAppEvent::Call(incoming)) => incoming,
        other => panic!("expected an incoming call event, got {:?}", other),
    };
    let to_callee = home.open_channel();
    let details = incoming.answer(&mut home, Some(to_callee)).unwrap();
    assert_eq!(details.init_payload, AppMessageFrame(b"ring ring".to_vec()));
    let reverse = details.to_caller.unwrap();

    // alice now holds both ends of the established call
    let call = alice_connect.call_outcome(&home, &ringing).unwrap().unwrap();
    assert_eq!(call.outgoing, to_callee);
    assert_eq!(call.incoming, ringing.from_callee);

    // frames flow in both directions
    assert_eq!(
        home.channel_send(call.outgoing, AppMessageFrame(b"hi bob".to_vec())).unwrap(),
        SendOutcome::Sent
    );
    match home.channel_recv(to_callee).unwrap() {
        RecvOutcome::Item(frame) => assert_eq!(frame, AppMessageFrame(b"hi bob".to_vec())),
        other => panic!("expected alice's frame, got {:?}", other),
    }
    assert_eq!(
        home.channel_send(reverse, AppMessageFrame(b"hi alice".to_vec())).unwrap(),
        SendOutcome::Sent
    );
    match home.channel_recv(call.incoming).unwrap() {
        RecvOutcome::Item(frame) => assert_eq!(frame, AppMessageFrame(b"hi alice".to_vec())),
        other => panic!("expected bob's frame, got {:?}", other),
    }
}

#[test]
fn test_dapp_login_reuses_live_session() {
    let mut home = new_home(b"home-key");
    let (alice, alice_own) = persona(b"alice-key");
    let alice_registered = register(&mut home, &alice, alice_own);
    let proof = hosting_proof(&alice_registered);

    let mut connect = DAppConnect::new(alice, ApplicationId("enable_call_between".into()), Vec::new());
    connect.login(&mut home, &proof).unwrap();
    let first = connect.session.as_ref().unwrap().session_id;
    connect.login(&mut home, &proof).unwrap();
    let second = connect.session.as_ref().unwrap().session_id;
    assert_eq!(first, second);
}

#[test]
fn test_pair_with_routes_through_named_home() {
    let mut home = new_home(b"home-key");
    let (alice, alice_own) = persona(b"alice-key");
    let (bob, bob_own) = persona(b"bob-key");
    register(&mut home, &alice, alice_own);
    let bob_registered = register(&mut home, &bob, bob_own);

    // the repository knows bob's registered profile, which names the home
    let mut repo = SimpleProfileRepo::new();
    repo.add(bob_registered.profile.clone());

    let alice_connect = DAppConnect::new(
        alice,
        ApplicationId("enable_call_between".into()),
        Vec::new(),
    );

    // an unparsable profile url is refused outright
    assert_eq!(
        alice_connect
            .pair_with(&repo, &mut home, "!!!", "enable_call_between")
            .unwrap_err(),
        ErrorKind::Unknown
    );

    // an unknown persona cannot be paired with
    let (stranger, _) = persona(b"mallory-key");
    assert_eq!(
        alice_connect
            .pair_with(&repo, &mut home, &stranger.profile_id().to_text(), "enable_call_between")
            .unwrap_err(),
        ErrorKind::LookupFailed
    );

    // pairing with bob through his named home queues the request for him
    let bob_url = bob.profile_id().to_text();
    alice_connect
        .pair_with(&repo, &mut home, &bob_url, "enable_call_between")
        .unwrap();

    let bob_session = home.login(&hosting_proof(&bob_registered)).unwrap();
    match home.events_next(&bob_session).unwrap() {
        Some(ProfileEvent::PairingRequest(half)) => {
            assert_eq!(&half.signer_id, alice_connect.selected_profile());
            assert_eq!(&half.peer_id, bob.profile_id());
            assert_eq!(half.relation_type, "enable_call_between");
        }
        other => panic!("expected the queued pairing request, got {:?}", other),
    }
}

#[test]
fn test_simple_profile_repo_load() {
    let (alice, alice_own) = persona(b"alice-key");
    let (stranger, _) = persona(b"mallory-key");
    let mut repo = SimpleProfileRepo::new();
    repo.add(alice_own.profile.clone());

    let loaded = repo.load(alice.profile_id()).unwrap();
    assert_eq!(&loaded.id, alice.profile_id());
    assert_eq!(
        repo.load(stranger.profile_id()).unwrap_err(),
        ErrorKind::LookupFailed
    );
}
