//! Client-side session orchestration and call routing.
//!
//! A [`DAppConnect`] runs one application's session in the name of one
//! persona: it logs in to the persona's home (reusing a live session where
//! one exists), checks in to receive incoming calls, and initiates outgoing
//! calls. An outgoing call is authorized locally first — a relation of the
//! required type with the callee must be among the known contacts — before
//! anything reaches the home; the authorization failure leaves the home
//! untouched.

use vstd::prelude::*;

use crate::crypto::{Signer, Validator};
use crate::error::ErrorKind;
use crate::home::{
    AppMsgSink, AppMsgStream, CallRequestDetails, HomeServer, HomeSession, IncomingCall,
};
use crate::identity::{AppMessageFrame, ApplicationId, ProfileId};
use crate::profile::{Profile, ProfileFacet, ProfileV};
use crate::home::{AppCheckinV, HomeSessionV, HostedProfileV, ProfileEventV};
use crate::relation::{
    peer_view, proof_has_side, signable_bytes, RelationHalfProof, RelationHalfProofV,
    RelationProof, RelationProofV,
};

verus! {

/// An opaque token a user interface hands out when it authorizes an
/// application to act for a persona.
#[derive(Debug)]
pub struct DAppPermission(pub Vec<u8>);

/// An established bidirectional application call: the send end toward the
/// callee and the receive end carrying the callee's frames back.
#[derive(Debug)]
pub struct DAppCall {
    pub outgoing: AppMsgSink,
    pub incoming: AppMsgStream,
}

/// An event handed to the application: an accepted pairing, or an incoming
/// call to answer.
#[derive(Debug)]
pub enum DAppEvent {
    PairingResponse(RelationProof),
    Call(IncomingCall),
}

/// An outgoing call that has been routed and is ringing: the application
/// polls [`DAppConnect::call_outcome`] with it until the callee answers.
#[derive(Debug)]
pub struct DAppCallRequest {
    /// The routed call's id at the home.
    pub call_id: u64,
    /// The channel the caller receives the callee's frames on.
    pub from_callee: AppMsgStream,
}

/// Whether `proof` is a relation between `my_id` and `peer_id`, of the
/// given type where one is required.
pub open spec fn relation_matches(
    proof: RelationProofV,
    my_id: Seq<u8>,
    peer_id: Seq<u8>,
    relation_type: Option<Seq<char>>,
) -> bool {
    &&& proof_has_side(proof, my_id)
    &&& peer_view(proof, my_id) == peer_id
    &&& (relation_type matches Some(required) ==> proof.relation_type == required)
}

/// The first relation among `relations` matching, or `None`.
pub open spec fn find_relation_spec(
    relations: Seq<RelationProofV>,
    my_id: Seq<u8>,
    peer_id: Seq<u8>,
    relation_type: Option<Seq<char>>,
) -> Option<RelationProofV>
    decreases relations.len(),
{
    if relations.len() == 0 {
        None
    } else if relation_matches(relations[0], my_id, peer_id, relation_type) {
        Some(relations[0])
    } else {
        find_relation_spec(relations.drop_first(), my_id, peer_id, relation_type)
    }
}

/// The first relation among `relations` that binds `my_id` to `peer_id`,
/// with the required type where one is given.
pub fn find_relation_proof(
    relations: &Vec<RelationProof>,
    my_id: &ProfileId,
    peer_id: &ProfileId,
    relation_type: Option<&str>,
) -> (r: Option<RelationProof>)
    ensures
        ({
            let relation_type_v = match relation_type {
                Some(required) => Some(required@),
                None => None,
            };
            let found = find_relation_spec(relations.deep_view(), my_id@, peer_id@, relation_type_v);
            &&& (r is Some <==> found is Some)
            &&& (r matches Some(found_proof) ==> Some(found_proof@) == found)
        }),
{
    let ghost relation_type_v: Option<Seq<char>> = match relation_type {
        Some(required) => Some(required@),
        None => None,
    };
    proof {
        assert(relations.deep_view().skip(0) =~= relations.deep_view());
    }
    let mut i: usize = 0;
    while i < relations.len()
        invariant
            i <= relations.len(),
            relations.deep_view().len() == relations@.len(),
            relation_type_v == (match relation_type {
                Some(required) => Some(required@),
                None => None::<Seq<char>>,
            }),
            find_relation_spec(relations.deep_view(), my_id@, peer_id@, relation_type_v)
                == find_relation_spec(
                relations.deep_view().skip(i as int),
                my_id@,
                peer_id@,
                relation_type_v,
            ),
        decreases relations.len() - i,
    {
        let candidate = &relations[i];
        let side_matches = if candidate.a_id == *my_id {
            candidate.b_id == *peer_id
        } else if candidate.b_id == *my_id {
            candidate.a_id == *peer_id
        } else {
            false
        };
        let type_matches = match relation_type {
            Some(required) => {
                let type_eq = crate::bytesutil::str_eq(candidate.relation_type.as_str(), required);
                proof {
                    assert(relation_type_v == Some(required@));
                    assert(type_eq <==> candidate.relation_type@ == required@);
                }
                type_eq
            },
            None => true,
        };
        proof {
            assert(relations.deep_view()[i as int] == relations@[i as int]@);
            assert(relations.deep_view().skip(i as int)[0] == relations.deep_view()[i as int]);
            let entry = relations.deep_view()[i as int];
            assert(entry.a_id == candidate.a_id@ && entry.b_id == candidate.b_id@);
            assert(side_matches <==> (proof_has_side(entry, my_id@) && peer_view(entry, my_id@)
                == peer_id@));
            assert(type_matches <==> (relation_type_v matches Some(required) ==> entry.relation_type
                == required));
            assert(side_matches && type_matches <==> relation_matches(
                entry,
                my_id@,
                peer_id@,
                relation_type_v,
            ));
        }
        if side_matches && type_matches {
            return Some(relations[i].clone());
        }
        proof {
            assert(relations.deep_view().skip(i as int).drop_first() =~= relations.deep_view().skip(
                i + 1,
            ));
        }
        i += 1;
    }
    proof {
        assert(relations.deep_view().skip(i as int).len() == 0);
    }
    None
}

/// The ids of the homes a persona profile names: the other side of each
/// proof in its persona facet, for the proofs the profile's own id is a
/// side of.
pub open spec fn persona_home_ids_spec(profile: ProfileV) -> Seq<Seq<u8>> {
    if profile.facet is Persona {
        home_ids_from(profile.facet->Persona_0.homes, profile.id)
    } else {
        Seq::empty()
    }
}

/// The peer of each proof that `id` is a side of, in order.
pub open spec fn home_ids_from(proofs: Seq<RelationProofV>, id: Seq<u8>) -> Seq<Seq<u8>>
    decreases proofs.len(),
{
    if proofs.len() == 0 {
        Seq::empty()
    } else {
        let rest = home_ids_from(proofs.drop_first(), id);
        if proof_has_side(proofs[0], id) {
            seq![peer_view(proofs[0], id)] + rest
        } else {
            rest
        }
    }
}

/// The candidate home ids to reach a persona at, extracted from its
/// profile: the peer of each hosting proof. A pairing initiator connects to
/// the first of these that answers.
pub fn persona_home_ids(profile: &Profile) -> (r: Vec<ProfileId>)
    ensures
        r.deep_view() == persona_home_ids_spec(profile@),
{
    let mut r: Vec<ProfileId> = Vec::new();
    let homes = match &profile.facet {
        ProfileFacet::Persona(facet) => &facet.homes,
        _ => {
            proof {
                assert(r.deep_view() =~= persona_home_ids_spec(profile@));
            }
            return r;
        },
    };
    proof {
        assert(homes.deep_view().skip(0) =~= homes.deep_view());
        assert(persona_home_ids_spec(profile@) == home_ids_from(homes.deep_view(), profile.id@));
    }
    let mut i: usize = 0;
    while i < homes.len()
        invariant
            i <= homes.len(),
            homes.deep_view().len() == homes@.len(),
            home_ids_from(homes.deep_view(), profile.id@) =~= r.deep_view() + home_ids_from(
                homes.deep_view().skip(i as int),
                profile.id@,
            ),
        decreases homes.len() - i,
    {
        let ghost before = r.deep_view();
        proof {
            assert(homes.deep_view()[i as int] == homes@[i as int]@);
            assert(homes.deep_view().skip(i as int)[0] == homes.deep_view()[i as int]);
            assert(homes.deep_view().skip(i as int).drop_first() =~= homes.deep_view().skip(i + 1));
        }
        match homes[i].peer_id(&profile.id) {
            Ok(peer) => {
                r.push(peer.clone());
                proof {
                    assert(r.deep_view() =~= before.push(
                        peer_view(homes.deep_view()[i as int], profile.id@),
                    ));
                    assert(before.push(peer_view(homes.deep_view()[i as int], profile.id@))
                        + home_ids_from(homes.deep_view().skip(i + 1), profile.id@) =~= before + (
                    seq![peer_view(homes.deep_view()[i as int], profile.id@)] + home_ids_from(
                        homes.deep_view().skip(i + 1),
                        profile.id@,
                    )));
                }
            },
            Err(_) => {
            },
        }
        i += 1;
    }
    proof {
        assert(homes.deep_view().skip(homes@.len() as int).len() == 0);
        assert(r.deep_view() + Seq::<Seq<u8>>::empty() =~= r.deep_view());
    }
    r
}

/// A profile lookup capability: potentially a whole network of nodes with
/// internal routing and sharding behind it.
pub trait ProfileRepo {
    /// The profile known for an id, if any.
    spec fn lookup(&self, id: Seq<u8>) -> Option<ProfileV>;

    /// Loads the profile of `id`; fails with [`ErrorKind::LookupFailed`]
    /// for ids not known here.
    fn load(&self, id: &ProfileId) -> (r: Result<Profile, ErrorKind>)
        ensures
            r is Ok <==> self.lookup(id@) is Some,
            r matches Ok(profile) ==> Some(profile@) == self.lookup(id@),
            r matches Err(e) ==> e == ErrorKind::LookupFailed,
    ;
}

/// The first profile in `profiles` holding `id`, or `None`.
pub open spec fn first_profile(profiles: Seq<ProfileV>, id: Seq<u8>) -> Option<ProfileV>
    decreases profiles.len(),
{
    if profiles.len() == 0 {
        None
    } else if profiles[0].id == id {
        Some(profiles[0])
    } else {
        first_profile(profiles.drop_first(), id)
    }
}

/// An in-memory [`ProfileRepo`]: a flat list of profiles, searched in
/// insertion order.
pub struct SimpleProfileRepo {
    pub profiles: Vec<Profile>,
}

impl SimpleProfileRepo {
    /// An empty repository.
    pub fn new() -> (r: Self)
        ensures
            r.profiles@.len() == 0,
    {
        SimpleProfileRepo { profiles: Vec::new() }
    }

    /// Makes `profile` known.
    pub fn add(&mut self, profile: Profile)
        ensures
            final(self).profiles.deep_view() == old(self).profiles.deep_view().push(profile@),
    {
        let ghost profile_v = profile@;
        self.profiles.push(profile);
        proof {
            assert(self.profiles.deep_view() =~= old(self).profiles.deep_view().push(profile_v));
        }
    }
}

impl ProfileRepo for SimpleProfileRepo {
    open spec fn lookup(&self, id: Seq<u8>) -> Option<ProfileV> {
        first_profile(self.profiles.deep_view(), id)
    }

    fn load(&self, id: &ProfileId) -> (r: Result<Profile, ErrorKind>) {
        proof {
            assert(self.profiles.deep_view().skip(0) =~= self.profiles.deep_view());
        }
        let mut i: usize = 0;
        while i < self.profiles.len()
            invariant
                i <= self.profiles.len(),
                self.profiles.deep_view().len() == self.profiles@.len(),
                first_profile(self.profiles.deep_view(), id@) == first_profile(
                    self.profiles.deep_view().skip(i as int),
                    id@,
                ),
            decreases self.profiles.len() - i,
        {
            proof {
                assert(self.profiles.deep_view()[i as int] == self.profiles@[i as int]@);
                assert(self.profiles.deep_view().skip(i as int)[0] == self.profiles.deep_view()[i as int]);
            }
            if self.profiles[i].id == *id {
                return Ok(self.profiles[i].clone());
            }
            proof {
                assert(self.profiles.deep_view().skip(i as int).drop_first()
                    =~= self.profiles.deep_view().skip(i + 1));
            }
            i += 1;
        }
        proof {
            assert(self.profiles.deep_view().skip(i as int).len() == 0);
        }
        Err(ErrorKind::LookupFailed)
    }
}

/// One application's session in the name of one persona.
pub struct DAppConnect<S: Signer> {
    /// Signs in the persona's name; its profile id selects the persona.
    pub signer: S,
    /// The application this session belongs to.
    pub app_id: ApplicationId,
    /// The persona's known relations, the local authorization evidence for
    /// outgoing calls.
    pub contacts: Vec<RelationProof>,
    /// The live home session, once logged in.
    pub session: Option<HomeSession>,
}

impl<S: Signer> DAppConnect<S> {
    /// A fresh client session for `app_id` in the name of `signer`, with
    /// the persona's known relations.
    pub fn new(signer: S, app_id: ApplicationId, contacts: Vec<RelationProof>) -> (r: Self)
        ensures
            r.signer == signer,
            r.app_id@ == app_id@,
            r.contacts == contacts,
            r.session is None,
    {
        DAppConnect { signer, app_id, contacts, session: None }
    }

    /// The persona this session speaks for.
    pub fn selected_profile(&self) -> (r: &ProfileId)
        ensures
            r@ == self.signer.id(),
    {
        self.signer.profile_id()
    }

    /// Obtains a session: reuses the held one where it is still live, and
    /// logs in with the hosting proof otherwise. After success the held
    /// session is live.
    pub fn login<HS: Signer, HV: Validator>(
        &mut self,
        home: &mut HomeServer<HS, HV>,
        proof_of_home: &RelationProof,
    ) -> (r: Result<(), ErrorKind>)
        requires
            old(home).wf(),
        ensures
            final(home).wf(),
            final(self).signer == old(self).signer,
            final(self).app_id == old(self).app_id,
            final(self).contacts == old(self).contacts,
            (old(self).session matches Some(session) && old(home).session_active(session@)) ==> (
            r is Ok && *final(self) == *old(self) && *final(home) == *old(home)),
            !(old(self).session matches Some(session) && old(home).session_active(session@))
                ==> ({
                &&& (r is Ok <==> old(home).login_refusal(proof_of_home@) is None)
                &&& (r matches Err(e) ==> Some(e) == old(home).login_refusal(proof_of_home@)
                    && *final(home) == *old(home) && *final(self) == *old(self))
            }),
            (old(self).session matches Some(session) && old(home).session_active(session@))
                ==> (final(self).session matches Some(live) && final(home).session_active(live@)),
            !(old(self).session matches Some(session) && old(home).session_active(session@)) && r
                is Ok ==> ({
                let persona = peer_view(proof_of_home@, old(home).signer.id());
                let index = old(home).hosted_index_of(persona);
                let entry = old(home).hosted_view()[index];
                &&& (final(self).session matches Some(live) && live@ == (HomeSessionV {
                    profile_id: persona,
                    session_id: old(home).next_session_id,
                }) && final(home).session_active(live@))
                &&& final(home).hosted_view() == old(home).hosted_view().update(
                    index,
                    (HostedProfileV {
                        own_profile: entry.own_profile,
                        events: entry.events,
                        active_session: Some(old(home).next_session_id),
                        checkins: Seq::empty(),
                    }),
                )
                &&& final(home).next_session_id == old(home).next_session_id + 1
                &&& final(home).calls_view() == old(home).calls_view()
                &&& final(home).channels_view() == old(home).channels_view()
            }),
    {
        let reuse = match &self.session {
            Some(session) => {
                match home.ping(session, "") {
                    Ok(_) => true,
                    Err(_) => false,
                }
            },
            None => false,
        };
        if reuse {
            return Ok(());
        }
        match home.login(proof_of_home) {
            Ok(session) => {
                self.session = Some(session);
                Ok(())
            },
            Err(e) => Err(e),
        }
    }

    /// Subscribes the live session to incoming calls for this application.
    pub fn checkin<HS: Signer, HV: Validator>(&mut self, home: &mut HomeServer<HS, HV>) -> (r:
        Result<(), ErrorKind>)
        requires
            old(home).wf(),
        ensures
            final(home).wf(),
            *final(self) == *old(self),
            old(self).session is None ==> r == Err::<(), ErrorKind>(ErrorKind::SessionClosed)
                && *final(home) == *old(home),
            old(self).session matches Some(session) ==> ({
                &&& (r is Ok <==> old(home).session_active(session@))
                &&& (r matches Err(e) ==> e == ErrorKind::SessionClosed && *final(home) == *old(
                    home,
                ))
                &&& (r is Ok ==> ({
                    let index = old(home).hosted_index_of(session@.profile_id);
                    let entry = old(home).hosted_view()[index];
                    let app = old(self).app_id@;
                    &&& (HomeServer::<HS, HV>::has_checkin(entry, app) ==> *final(home) == *old(
                        home,
                    ))
                    &&& (!HomeServer::<HS, HV>::has_checkin(entry, app)
                        ==> final(home).hosted_view() == old(home).hosted_view().update(
                        index,
                        (HostedProfileV {
                            checkins: entry.checkins.push(
                                AppCheckinV { app: app, pending: Seq::empty() },
                            ),
                            ..entry
                        }),
                    ))
                }))
            }),
    {
        match &self.session {
            Some(session) => home.checkin_app(session, &self.app_id),
            None => Err(ErrorKind::SessionClosed),
        }
    }

    /// The next event for this application: an incoming call from the
    /// check-in stream, or `None` where none waits right now.
    pub fn checkin_next<HS: Signer, HV: Validator>(&self, home: &mut HomeServer<HS, HV>) -> (r:
        Result<Option<DAppEvent>, ErrorKind>)
        requires
            old(home).wf(),
        ensures
            final(home).wf(),
            r is Err ==> *final(home) == *old(home),
            self.session is None ==> r == Err::<Option<DAppEvent>, ErrorKind>(
                ErrorKind::SessionClosed,
            ),
            self.session matches Some(session) ==> ({
                &&& (!old(home).session_active(session@) ==> r == Err::<
                    Option<DAppEvent>,
                    ErrorKind,
                >(ErrorKind::SessionClosed))
                &&& (old(home).session_active(session@) ==> ({
                    let index = old(home).hosted_index_of(session@.profile_id);
                    let entry = old(home).hosted_view()[index];
                    &&& (!HomeServer::<HS, HV>::has_checkin(entry, self.app_id@) ==> r == Err::<
                        Option<DAppEvent>,
                        ErrorKind,
                    >(ErrorKind::LookupFailed))
                    &&& (HomeServer::<HS, HV>::has_checkin(entry, self.app_id@) ==> ({
                        let checkin_index = HomeServer::<HS, HV>::checkin_index_of(
                            entry,
                            self.app_id@,
                        );
                        let pending = entry.checkins[checkin_index].pending;
                        &&& (pending.len() == 0 ==> (r matches Ok(event) && event is None
                            && *final(home) == *old(home)))
                        &&& (pending.len() > 0 ==> (r matches Ok(event) && event matches Some(
                            delivered,
                        ) && delivered matches DAppEvent::Call(call) && call.call_id()
                            == pending[0]
                            && final(home).hosted_view() == old(home).hosted_view().update(
                            index,
                            (HostedProfileV {
                                checkins: entry.checkins.update(
                                    checkin_index,
                                    AppCheckinV {
                                        app: self.app_id@,
                                        pending: pending.drop_first(),
                                    },
                                ),
                                ..entry
                            }),
                        ) && final(home).calls_view() == old(home).calls_view()
                            && final(home).channels_view() == old(home).channels_view()))
                    }))
                }))
            }),
    {
        let session = match &self.session {
            Some(session) => session,
            None => {
                return Err(ErrorKind::SessionClosed);
            },
        };
        match home.incoming_next(session, &self.app_id) {
            Ok(Some(call)) => Ok(Some(DAppEvent::Call(call))),
            Ok(None) => Ok(None),
            Err(e) => Err(e),
        }
    }

    /// The half-proof this client signs when initiating a `relation_type`
    /// pairing with `peer_id`.
    pub open spec fn pairing_half_proof(&self, relation_type: Seq<char>, peer_id: Seq<u8>) -> RelationHalfProofV {
        RelationHalfProofV {
            relation_type,
            signer_id: self.signer.id(),
            peer_id,
            signature: self.signer.sig_of(signable_bytes(relation_type, self.signer.id(), peer_id)),
        }
    }

    /// Initiates pairing with a peer: signs a half-proof of the given
    /// relation type and submits it to the home hosting the peer. The
    /// completed proof comes back as a pairing-response event.
    pub fn initiate_contact<HS: Signer, HV: Validator>(
        &self,
        home: &mut HomeServer<HS, HV>,
        with_profile: &ProfileId,
        relation_type: &str,
    ) -> (r: Result<(), ErrorKind>)
        requires
            old(home).wf(),
        ensures
            final(home).wf(),
            r is Ok <==> old(home).is_hosted(with_profile@),
            r matches Err(e) ==> e == ErrorKind::LookupFailed && *final(home) == *old(home),
            r is Ok ==> final(home).hosted_view() == old(home).hosted_view().update(
                old(home).hosted_index_of(with_profile@),
                (HostedProfileV {
                    events: old(home).hosted_view()[old(home).hosted_index_of(with_profile@)].events.push(
                        ProfileEventV::PairingRequest(self.pairing_half_proof(relation_type@, with_profile@)),
                    ),
                    ..old(home).hosted_view()[old(home).hosted_index_of(with_profile@)]
                }),
            ),
    {
        let half_proof = RelationHalfProof::new(relation_type, with_profile, &self.signer);
        home.pair_request(half_proof)
    }

    /// Initiates pairing with a persona given by the text form of its id:
    /// resolves the profile, extracts the candidate home ids from its
    /// persona facet, and submits a signed half-proof to `home`, which must
    /// be one of those candidates. Fails with [`ErrorKind::Unknown`] on an
    /// unparsable id and with [`ErrorKind::LookupFailed`] where the profile
    /// is unknown, names no such home, or the peer is not hosted there.
    pub fn pair_with<R: ProfileRepo, HS: Signer, HV: Validator>(
        &self,
        repo: &R,
        home: &mut HomeServer<HS, HV>,
        acceptor_profile_url: &str,
        relation_type: &str,
    ) -> (r: Result<(), ErrorKind>)
        requires
            old(home).wf(),
        ensures
            final(home).wf(),
            r is Err ==> *final(home) == *old(home),
            crate::identity::multibase_decoded(acceptor_profile_url@) is None ==> r == Err::<
                (),
                ErrorKind,
            >(ErrorKind::Unknown),
            crate::identity::multibase_decoded(acceptor_profile_url@) matches Some(acceptor_id)
                ==> ({
                ||| (r == Err::<(), ErrorKind>(ErrorKind::LookupFailed) && (repo.lookup(
                    acceptor_id,
                ) is None || !persona_home_ids_spec(repo.lookup(acceptor_id)->Some_0).contains(
                    old(home).signer.id(),
                ) || !old(home).is_hosted(acceptor_id)))
                ||| (r is Ok && repo.lookup(acceptor_id) is Some && persona_home_ids_spec(
                    repo.lookup(acceptor_id)->Some_0,
                ).contains(old(home).signer.id()) && old(home).is_hosted(acceptor_id)
                    && final(home).hosted_view() == old(home).hosted_view().update(
                    old(home).hosted_index_of(acceptor_id),
                    (HostedProfileV {
                        events: old(home).hosted_view()[old(home).hosted_index_of(acceptor_id)].events.push(
                            ProfileEventV::PairingRequest(
                                self.pairing_half_proof(relation_type@, acceptor_id),
                            ),
                        ),
                        ..old(home).hosted_view()[old(home).hosted_index_of(acceptor_id)]
                    }),
                ))
            }),
    {
        let acceptor_id = match ProfileId::from_text(acceptor_profile_url) {
            Ok(id) => id,
            Err(_) => {
                return Err(ErrorKind::Unknown);
            },
        };
        let acceptor_profile = match repo.load(&acceptor_id) {
            Ok(profile) => profile,
            Err(e) => {
                return Err(e);
            },
        };
        let candidate_homes = persona_home_ids(&acceptor_profile);
        let ghost candidates = candidate_homes.deep_view();
        let mut hosted_here = false;
        let mut i: usize = 0;
        while i < candidate_homes.len()
            invariant
                i <= candidate_homes.len(),
                candidates == candidate_homes.deep_view(),
                candidates.len() == candidate_homes@.len(),
                hosted_here <==> (exists|j: int|
                    0 <= j < i && #[trigger] candidates[j] == home.signer.id()),
            decreases candidate_homes.len() - i,
        {
            if candidate_homes[i] == *home.profile_id() {
                hosted_here = true;
                proof {
                    assert(candidates[i as int] == home.signer.id());
                }
            }
            i += 1;
        }
        proof {
            if hosted_here {
                let j = choose|j: int|
                    0 <= j < candidates.len() && #[trigger] candidates[j] == home.signer.id();
                assert(candidates.contains(home.signer.id()));
            } else {
                assert forall|j: int|
                    0 <= j < candidates.len() implies #[trigger] candidates[j]
                    != home.signer.id() by {}
                assert(!candidates.contains(home.signer.id()));
            }
        }
        if !hosted_here {
            return Err(ErrorKind::LookupFailed);
        }
        let half_proof = RelationHalfProof::new(relation_type, &acceptor_id, &self.signer);
        home.pair_request(half_proof)
    }

    /// Initiates a call to `profile_id` with `init_payload`. The local
    /// contacts are searched for an `enable_call_between` relation with the
    /// callee before anything reaches the home: without one the call fails
    /// with [`ErrorKind::Unknown`] and the home is untouched. A routed call
    /// is returned ringing; a callee with no live check-in for the
    /// application, and every home-side refusal, also surfaces as
    /// [`ErrorKind::Unknown`].
    pub fn call<HS: Signer, HV: Validator>(
        &self,
        home: &mut HomeServer<HS, HV>,
        profile_id: &ProfileId,
        init_payload: AppMessageFrame,
    ) -> (r: Result<DAppCallRequest, ErrorKind>)
        requires
            old(home).wf(),
        ensures
            final(home).wf(),
            find_relation_spec(
                self.contacts.deep_view(),
                self.signer.id(),
                profile_id@,
                Some("enable_call_between"@),
            ) is None ==> (r matches Err(e) && e == ErrorKind::Unknown && *final(home)
                == *old(home)),
            r matches Err(e) ==> e == ErrorKind::Unknown,
            r is Ok <==> ({
                let found = find_relation_spec(
                    self.contacts.deep_view(),
                    self.signer.id(),
                    profile_id@,
                    Some("enable_call_between"@),
                );
                found matches Some(relation) && relation.relation_type == self.app_id@
                    && proof_has_side(relation, self.signer.id()) && old(home).is_hosted(
                    peer_view(relation, self.signer.id()),
                ) && old(home).callee_ready(peer_view(relation, self.signer.id()), self.app_id@)
            }),
            r matches Ok(request) ==> ({
                let relation = find_relation_spec(
                    self.contacts.deep_view(),
                    self.signer.id(),
                    profile_id@,
                    Some("enable_call_between"@),
                )->Some_0;
                let with_channel = old(home).channels_view().push(
                    crate::channel::ChannelModel {
                        queue: Seq::<AppMessageFrame>::empty(),
                        capacity: crate::CHANNEL_CAPACITY as nat,
                        sender_alive: true,
                        receiver_alive: true,
                    },
                );
                &&& request.from_callee == old(home).channels_view().len() as u64
                &&& request.call_id == old(home).calls_view().len() as u64
                &&& final(home).channels_view() == with_channel
                &&& final(home).calls_view() == old(home).calls_view().push(
                    crate::home::PendingCallV {
                        request: crate::home::CallRequestDetailsV {
                            relation,
                            init_payload: init_payload@,
                            to_caller: Some(request.from_callee),
                        },
                        caller_id: self.signer.id(),
                        callee_id: peer_view(relation, self.signer.id()),
                        answered: None,
                    },
                )
            }),
    {
        let ghost contacts0 = self.contacts.deep_view();
        let relation = match find_relation_proof(
            &self.contacts,
            self.signer.profile_id(),
            profile_id,
            Some(RelationProof::relation_type_enable_calls_between()),
        ) {
            Some(relation) => relation,
            None => {
                return Err(ErrorKind::Unknown);
            },
        };
        let from_callee = home.open_channel();
        let request = CallRequestDetails {
            relation,
            init_payload,
            to_caller: Some(from_callee),
        };
        let ghost mid = *home;
        let ghost callee = peer_view(relation@, self.signer.id());
        let outcome = home.call(self.signer.profile_id(), &self.app_id, request);
        proof {
            if mid.is_hosted(callee) || old(home).is_hosted(callee) {
                mid.lemma_hosting_agrees(old(home), callee, self.app_id@);
            }
        }
        match outcome {
            Ok(Some(call_id)) => Ok(DAppCallRequest { call_id, from_callee }),
            Ok(None) => Err(ErrorKind::Unknown),
            Err(_) => Err(ErrorKind::Unknown),
        }
    }

    /// Polls a ringing call: `None` while the callee has not answered —
    /// the caller suspends and retries — and the established [`DAppCall`]
    /// once it has. A callee that answered without offering a channel
    /// toward itself surfaces as [`ErrorKind::Unknown`], as does an unknown
    /// call id.
    pub fn call_outcome<HS: Signer, HV: Validator>(
        &self,
        home: &HomeServer<HS, HV>,
        request: &DAppCallRequest,
    ) -> (r: Result<Option<DAppCall>, ErrorKind>)
        requires
            home.wf(),
        ensures
            (request.call_id as int) < home.calls_view().len() ==> ({
                let answered = home.calls_view()[request.call_id as int].answered;
                &&& (answered is None ==> r == Ok::<Option<DAppCall>, ErrorKind>(None))
                &&& (answered matches Some(Some(to_callee)) ==> r matches Ok(call_opt)
                    && call_opt matches Some(call) && call.outgoing == to_callee && call.incoming
                    == request.from_callee)
                &&& (answered matches Some(to_callee_opt) && to_callee_opt is None ==> r
                    == Err::<Option<DAppCall>, ErrorKind>(ErrorKind::Unknown))
            }),
            (request.call_id as int) >= home.calls_view().len() ==> r == Err::<
                Option<DAppCall>,
                ErrorKind,
            >(ErrorKind::Unknown),
    {
        match home.call_response(request.call_id) {
            Ok(None) => Ok(None),
            Ok(Some(Some(to_callee))) => Ok(
                Some(DAppCall { outgoing: to_callee, incoming: request.from_callee }),
            ),
            Ok(Some(None)) => Err(ErrorKind::Unknown),
            Err(_) => Err(ErrorKind::Unknown),
        }
    }
}

} // verus!
