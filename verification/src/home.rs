//! The server-side protocol state machine of a home.
//!
//! A [`HomeServer`] hosts personas: it registers them by completing their
//! `hosted_on_home` half-proofs, authenticates logins against those proofs,
//! queues pairing events for delivery in arrival order, and routes
//! application calls to personas checked in for the called application.
//!
//! The transport collaborator is expected to authenticate each connection
//! before operations arrive, so operations that the wire protocol ties to
//! the connection context take the authenticated caller's id as an explicit
//! `caller` argument. At most one session per profile is live at any time: a
//! new login silently supersedes the prior session, whose handle then fails
//! every operation with [`ErrorKind::SessionClosed`].

use vstd::prelude::*;

use crate::bytesutil::str_eq;
use crate::channel::{BoundedChannel, ChannelModel, RecvOutcome, SendOutcome};
use crate::crypto::{Signer, Validator};
use crate::error::ErrorKind;
use crate::identity::{AppMessageFrame, ApplicationId, ProfileId};
use crate::profile::{OwnProfile, OwnProfileV, PersonaFacetV, Profile, ProfileFacet, ProfileFacetV, ProfileV};
use crate::relation::{
    completion_of, half_proof_signable, peer_view, proof_has_side, RelationHalfProof,
    RelationHalfProofV, RelationProof, RelationProofV,
};
use crate::CHANNEL_CAPACITY;

verus! {

/// The send end of an application message channel routed through a home:
/// a handle into the home's channel table.
pub type AppMsgSink = u64;

/// The receive end of an application message channel routed through a home:
/// a handle into the home's channel table.
pub type AppMsgStream = u64;

/// The mathematical value of a [`CallRequestDetails`].
#[verifier::ext_equal]
pub struct CallRequestDetailsV {
    pub relation: RelationProofV,
    pub init_payload: Seq<u8>,
    pub to_caller: Option<AppMsgSink>,
}

/// What a caller hands to a callee: the relation authorizing the call, an
/// initial payload the callee can examine before answering, and, where the
/// caller wants messages back, the send end of a channel toward the caller.
#[derive(Debug)]
pub struct CallRequestDetails {
    /// Proof that the caller is authorized to call the callee; the callee
    /// learns who is calling from it.
    pub relation: RelationProof,
    /// A message the callee can examine before answering or rejecting.
    pub init_payload: AppMessageFrame,
    /// The send end of a channel back to the caller, or `None` where the
    /// caller wants no response messages.
    pub to_caller: Option<AppMsgSink>,
}

impl View for CallRequestDetails {
    type V = CallRequestDetailsV;

    open spec fn view(&self) -> CallRequestDetailsV {
        CallRequestDetailsV {
            relation: self.relation@,
            init_payload: self.init_payload@,
            to_caller: self.to_caller,
        }
    }
}

impl Clone for CallRequestDetails {
    fn clone(&self) -> (res: Self)
        ensures
            res@ == self@,
    {
        let res = CallRequestDetails {
            relation: self.relation.clone(),
            init_payload: self.init_payload.clone(),
            to_caller: self.to_caller,
        };
        proof {
            assert(res@ =~= self@);
        }
        res
    }
}

/// The mathematical value of a [`ProfileEvent`].
#[verifier::ext_equal]
pub enum ProfileEventV {
    Unknown(Seq<u8>),
    PairingRequest(RelationHalfProofV),
    PairingResponse(RelationProofV),
}

/// An event delivered to a persona's session, in arrival order.
#[derive(Debug)]
pub enum ProfileEvent {
    /// An event of a kind this implementation does not know; kept as raw
    /// bytes for forward compatibility.
    Unknown(Vec<u8>),
    /// A peer wants to pair: its signed half-proof, awaiting completion.
    PairingRequest(RelationHalfProof),
    /// A peer accepted pairing: the completed relation proof.
    PairingResponse(RelationProof),
}

impl View for ProfileEvent {
    type V = ProfileEventV;

    open spec fn view(&self) -> ProfileEventV {
        match self {
            ProfileEvent::Unknown(bytes) => ProfileEventV::Unknown(bytes@),
            ProfileEvent::PairingRequest(half_proof) => ProfileEventV::PairingRequest(half_proof@),
            ProfileEvent::PairingResponse(proof) => ProfileEventV::PairingResponse(proof@),
        }
    }
}

/// The mathematical value of an [`AppCheckin`].
#[verifier::ext_equal]
pub struct AppCheckinV {
    pub app: Seq<char>,
    pub pending: Seq<u64>,
}

/// One application the active session is checked in for, with the calls
/// awaiting delivery to it, oldest first.
#[derive(Debug)]
pub struct AppCheckin {
    pub app: ApplicationId,
    pub pending: Vec<u64>,
}

impl View for AppCheckin {
    type V = AppCheckinV;

    open spec fn view(&self) -> AppCheckinV {
        AppCheckinV { app: self.app@, pending: self.pending@ }
    }
}

/// The mathematical value of a [`HostedProfile`].
#[verifier::ext_equal]
pub struct HostedProfileV {
    pub own_profile: OwnProfileV,
    pub events: Seq<ProfileEventV>,
    pub active_session: Option<u64>,
    pub checkins: Seq<AppCheckinV>,
}

/// Everything a home stores for one hosted persona.
#[derive(Debug)]
pub struct HostedProfile {
    /// The stored profile, its facet holding the hosting proof.
    pub own_profile: OwnProfile,
    /// Events queued for the persona, oldest first; delivered to the active
    /// session, or kept while the persona is offline.
    pub events: Vec<ProfileEvent>,
    /// The id of the one live session, if the persona is logged in.
    pub active_session: Option<u64>,
    /// The applications the active session is checked in for.
    pub checkins: Vec<AppCheckin>,
}

impl View for HostedProfile {
    type V = HostedProfileV;

    open spec fn view(&self) -> HostedProfileV {
        HostedProfileV {
            own_profile: self.own_profile@,
            events: self.events.deep_view(),
            active_session: self.active_session,
            checkins: self.checkins.deep_view(),
        }
    }
}

impl DeepView for ProfileEvent {
    type V = ProfileEventV;

    open spec fn deep_view(&self) -> ProfileEventV {
        self@
    }
}

impl DeepView for AppCheckin {
    type V = AppCheckinV;

    open spec fn deep_view(&self) -> AppCheckinV {
        self@
    }
}

/// The mathematical value of a [`PendingCall`].
#[verifier::ext_equal]
pub struct PendingCallV {
    pub request: CallRequestDetailsV,
    pub caller_id: Seq<u8>,
    pub callee_id: Seq<u8>,
    pub answered: Option<Option<AppMsgSink>>,
}

/// One routed call, from its delivery into the callee's check-in stream
/// until (and after) the callee answers.
#[derive(Debug)]
pub struct PendingCall {
    pub request: CallRequestDetails,
    pub caller_id: ProfileId,
    pub callee_id: ProfileId,
    /// `None` while ringing; once answered, the send end the callee offered
    /// toward itself, or `None` where it wants no messages.
    pub answered: Option<Option<AppMsgSink>>,
}

impl View for PendingCall {
    type V = PendingCallV;

    open spec fn view(&self) -> PendingCallV {
        PendingCallV {
            request: self.request@,
            caller_id: self.caller_id@,
            callee_id: self.callee_id@,
            answered: self.answered,
        }
    }
}

/// The mathematical value of a [`HomeSession`].
#[verifier::ext_equal]
pub struct HomeSessionV {
    pub profile_id: Seq<u8>,
    pub session_id: u64,
}

/// A per-login capability handle. It is live exactly while it is the
/// profile's active session on the server; a later login or an unregister
/// makes it stale, and every operation on a stale handle fails with
/// [`ErrorKind::SessionClosed`].
#[derive(Debug)]
pub struct HomeSession {
    pub profile_id: ProfileId,
    pub session_id: u64,
}

impl View for HomeSession {
    type V = HomeSessionV;

    open spec fn view(&self) -> HomeSessionV {
        HomeSessionV { profile_id: self.profile_id@, session_id: self.session_id }
    }
}

impl Clone for HomeSession {
    fn clone(&self) -> (res: Self)
        ensures
            res@ == self@,
    {
        HomeSession { profile_id: self.profile_id.clone(), session_id: self.session_id }
    }
}

/// A handle to one call delivered from a check-in stream. Answering consumes
/// the handle, so a call is answerable at most once.
#[derive(Debug)]
pub struct IncomingCall {
    call_id: u64,
}

impl IncomingCall {
    /// The id of the routed call this handle delivers.
    pub closed spec fn call_id(&self) -> u64 {
        self.call_id
    }

    /// The id of the routed call this handle delivers.
    pub fn id(&self) -> (r: u64)
        ensures
            r == self.call_id(),
    {
        self.call_id
    }

    /// The details of the call, peekable before answering; fails with
    /// [`ErrorKind::LookupFailed`] for a handle the home does not know.
    pub fn request_details<'a, S: Signer, V: Validator>(&self, home: &'a HomeServer<S, V>) -> (r:
        Result<&'a CallRequestDetails, ErrorKind>)
        requires
            home.wf(),
        ensures
            r is Ok <==> (self.call_id() as int) < home.calls_view().len(),
            r matches Ok(details) ==> details@ == home.calls_view()[self.call_id() as int].request,
            r matches Err(e) ==> e == ErrorKind::LookupFailed,
    {
        if self.call_id < home.calls.len() as u64 {
            Ok(&home.calls[self.call_id as usize].request)
        } else {
            Err(ErrorKind::LookupFailed)
        }
    }

    /// Answers the call, consuming the handle: a call is answerable at most
    /// once. `to_callee` is the send end of a channel toward the callee, or
    /// `None` where the callee wants no messages; it must name a channel of
    /// this home. The caller's side observes the answer through
    /// [`HomeServer::call_response`]. Fails with
    /// [`ErrorKind::LookupFailed`] for an unknown call or channel handle
    /// and with [`ErrorKind::Unknown`] for a call already answered.
    pub fn answer<S: Signer, V: Validator>(
        self,
        home: &mut HomeServer<S, V>,
        to_callee: Option<AppMsgSink>,
    ) -> (r: Result<CallRequestDetails, ErrorKind>)
        requires
            old(home).wf(),
        ensures
            final(home).wf(),
            r is Err ==> *final(home) == *old(home),
            (self.call_id() as int) >= old(home).calls_view().len() ==> (r matches Err(e) && e
                == ErrorKind::LookupFailed),
            (self.call_id() as int) < old(home).calls_view().len() && (to_callee matches Some(h)
                && (h as int) >= old(home).channels_view().len()) ==> (r matches Err(e) && e
                == ErrorKind::LookupFailed),
            (self.call_id() as int) < old(home).calls_view().len() && (to_callee matches Some(h)
                ==> (h as int) < old(home).channels_view().len()) ==> ({
                let call = old(home).calls_view()[self.call_id() as int];
                &&& (call.answered is Some ==> (r matches Err(e) && e == ErrorKind::Unknown))
                &&& (call.answered is None ==> {
                    &&& r matches Ok(details) && details@ == call.request
                    &&& final(home).calls_view() == old(home).calls_view().update(
                        self.call_id() as int,
                        PendingCallV { answered: Some(to_callee), ..call },
                    )
                    &&& final(home).hosted_view() == old(home).hosted_view()
                    &&& final(home).channels_view() == old(home).channels_view()
                    &&& final(home).next_session_id == old(home).next_session_id
                    &&& final(home).signer == old(home).signer
                    &&& final(home).validator == old(home).validator
                })
            }),
    {
        if !(self.call_id < home.calls.len() as u64) {
            return Err(ErrorKind::LookupFailed);
        }
        match to_callee {
            Some(handle) => {
                if !(handle < home.channels.len() as u64) {
                    return Err(ErrorKind::LookupFailed);
                }
            },
            None => {},
        }
        let index = self.call_id as usize;
        let already_answered = match home.calls[index].answered {
            Some(_) => true,
            None => false,
        };
        if already_answered {
            return Err(ErrorKind::Unknown);
        }
        home.calls[index].answered = Some(to_callee);
        let details = home.calls[index].request.clone();
        proof {
            let call = old(home).calls_view()[self.call_id() as int];
            assert(home.calls_view() =~~= old(home).calls_view().update(
                self.call_id() as int,
                PendingCallV { answered: Some(to_callee), ..call },
            ));
            assert(home.hosted_view() =~= old(home).hosted_view());
            assert(home.channels_view() =~= old(home).channels_view());
            assert forall|i: int|
                0 <= i < home.hosted_view().len() implies home.entry_wf(
                #[trigger] home.hosted_view()[i],
            ) by {
                assert(old(home).entry_wf(old(home).hosted_view()[i]));
            }
            assert forall|i: int|
                0 <= i < home.calls_view().len() implies home.call_wf(
                #[trigger] home.calls_view()[i],
            ) by {
                assert(old(home).call_wf(old(home).calls_view()[i]));
            }
        }
        Ok(details)
    }
}

/// An in-memory home server: the hosting table, the session and pairing
/// state of each hosted persona, the routed calls, and the application
/// message channels the calls communicate over.
#[derive(Debug)]
pub struct HomeServer<S: Signer, V: Validator> {
    /// Signs in the home's name; its profile id is the home's id.
    pub signer: S,
    /// Validates profiles and signatures offered by clients.
    pub validator: V,
    /// The hosted personas.
    pub hosted: Vec<HostedProfile>,
    /// The id the next login gets; session ids are never reused.
    pub next_session_id: u64,
    /// All routed calls, indexed by call id.
    pub calls: Vec<PendingCall>,
    /// All application message channels, indexed by handle.
    pub channels: Vec<BoundedChannel<AppMessageFrame>>,
}

impl<S: Signer, V: Validator> HomeServer<S, V> {
    /// The hosted entries as mathematical values.
    pub open spec fn hosted_view(&self) -> Seq<HostedProfileV> {
        Seq::new(self.hosted@.len(), |i: int| self.hosted@[i]@)
    }

    /// The routed calls as mathematical values.
    pub open spec fn calls_view(&self) -> Seq<PendingCallV> {
        Seq::new(self.calls@.len(), |i: int| self.calls@[i]@)
    }

    /// The message channels as mathematical values.
    pub open spec fn channels_view(&self) -> Seq<ChannelModel<AppMessageFrame>> {
        Seq::new(self.channels@.len(), |i: int| self.channels@[i]@)
    }

    /// Whether a persona with this id is hosted here.
    pub open spec fn is_hosted(&self, id: Seq<u8>) -> bool {
        exists|i: int|
            0 <= i < self.hosted_view().len() && self.hosted_view()[i].own_profile.profile.id == id
    }

    /// The index of the hosted entry with this id; meaningful where
    /// [`HomeServer::is_hosted`] holds, and unique under [`HomeServer::wf`].
    pub open spec fn hosted_index_of(&self, id: Seq<u8>) -> int {
        choose|i: int|
            0 <= i < self.hosted_view().len() && self.hosted_view()[i].own_profile.profile.id == id
    }

    /// The hosted entry with this id.
    pub open spec fn hosted_entry(&self, id: Seq<u8>) -> HostedProfileV {
        self.hosted_view()[self.hosted_index_of(id)]
    }

    /// Whether this session handle is the live session of its profile.
    pub open spec fn session_active(&self, session: HomeSessionV) -> bool {
        self.is_hosted(session.profile_id) && self.hosted_entry(
            session.profile_id,
        ).active_session == Some(session.session_id)
    }

    /// Well-formedness: hosted ids are unique, issued session ids stay below
    /// the counter, channels are well-formed, check-ins name each
    /// application at most once, and call and channel handles stored in the
    /// state are valid.
    /// Well-formedness of one hosted entry within this server: its issued
    /// session id stays below the counter, its check-ins name each
    /// application at most once, and every pending call id is a valid call
    /// index.
    pub open spec fn entry_wf(&self, entry: HostedProfileV) -> bool {
        &&& (entry.active_session matches Some(s) ==> s < self.next_session_id)
        &&& (forall|j: int, k: int|
            0 <= j < k < entry.checkins.len() ==> (#[trigger] entry.checkins[j]).app
                != (#[trigger] entry.checkins[k]).app)
        &&& (forall|j: int, k: int|
            0 <= j < entry.checkins.len() && 0 <= k < (#[trigger] entry.checkins[j]).pending.len()
                ==> (#[trigger] entry.checkins[j].pending[k] as int) < self.calls_view().len())
    }

    /// Well-formedness of one routed call within this server: the channel
    /// handles it holds are valid channel indexes.
    pub open spec fn call_wf(&self, call: PendingCallV) -> bool {
        &&& (call.request.to_caller matches Some(h) ==> (h as int) < self.channels@.len())
        &&& (call.answered matches Some(Some(h)) ==> (h as int) < self.channels@.len())
    }

    /// Well-formedness: hosted ids are unique, channels are well-formed, and
    /// every hosted entry and every routed call is well-formed within this
    /// server.
    pub open spec fn wf(&self) -> bool {
        &&& (forall|i: int, j: int|
            0 <= i < j < self.hosted_view().len()
                ==> (#[trigger] self.hosted_view()[i]).own_profile.profile.id
                != (#[trigger] self.hosted_view()[j]).own_profile.profile.id)
        &&& (forall|i: int|
            0 <= i < self.hosted_view().len() ==> self.entry_wf(#[trigger] self.hosted_view()[i]))
        &&& (forall|i: int| 0 <= i < self.channels@.len() ==> (#[trigger] self.channels@[i]).wf())
        &&& (forall|i: int|
            0 <= i < self.calls_view().len() ==> self.call_wf(#[trigger] self.calls_view()[i]))
    }

    /// If an entry at `i` holds `id`, then under [`HomeServer::wf`] it is
    /// the entry [`HomeServer::hosted_index_of`] picks.
    pub proof fn lemma_hosted_index_is(&self, id: Seq<u8>, i: int)
        requires
            self.wf(),
            0 <= i < self.hosted_view().len(),
            self.hosted_view()[i].own_profile.profile.id == id,
        ensures
            self.is_hosted(id),
            self.hosted_index_of(id) == i,
    {
        assert(self.is_hosted(id));
        let j = self.hosted_index_of(id);
        if i < j {
            assert(self.hosted_view()[i].own_profile.profile.id != self.hosted_view()[j].own_profile.profile.id);
        } else if j < i {
            assert(self.hosted_view()[j].own_profile.profile.id != self.hosted_view()[i].own_profile.profile.id);
        }
    }

    /// Two server states with the same hosted entries agree on who is
    /// hosted, where, and who is ready to take calls.
    pub proof fn lemma_hosting_agrees(&self, other: &Self, id: Seq<u8>, app: Seq<char>)
        requires
            self.wf(),
            other.wf(),
            self.hosted_view() == other.hosted_view(),
        ensures
            self.is_hosted(id) <==> other.is_hosted(id),
            self.is_hosted(id) ==> self.hosted_index_of(id) == other.hosted_index_of(id)
                && self.hosted_entry(id) == other.hosted_entry(id),
            self.is_hosted(id) ==> (self.callee_ready(id, app) <==> other.callee_ready(id, app)),
    {
        if self.is_hosted(id) {
            let i = self.hosted_index_of(id);
            self.lemma_hosted_index_is(id, i);
            other.lemma_hosted_index_is(id, i);
        }
        if other.is_hosted(id) {
            let i = other.hosted_index_of(id);
            self.lemma_hosted_index_is(id, i);
        }
    }

    /// At most one session per profile is live: two active handles for the
    /// same profile are the same session.
    pub proof fn lemma_single_live_session(&self, first: HomeSessionV, second: HomeSessionV)
        requires
            self.session_active(first),
            self.session_active(second),
            first.profile_id == second.profile_id,
        ensures
            first.session_id == second.session_id,
    {
    }

    /// A fresh home server in the name of `signer`, hosting nothing.
    pub fn new(signer: S, validator: V) -> (r: Self)
        ensures
            r.wf(),
            r.signer == signer,
            r.validator == validator,
            r.hosted_view() == Seq::<HostedProfileV>::empty(),
            r.calls_view() == Seq::<PendingCallV>::empty(),
            r.channels_view() == Seq::<ChannelModel<AppMessageFrame>>::empty(),
            r.next_session_id == 0,
    {
        let r = HomeServer {
            signer,
            validator,
            hosted: Vec::new(),
            next_session_id: 0,
            calls: Vec::new(),
            channels: Vec::new(),
        };
        proof {
            assert(r.hosted_view() =~= Seq::<HostedProfileV>::empty());
            assert(r.calls_view() =~= Seq::<PendingCallV>::empty());
            assert(r.channels_view() =~= Seq::<ChannelModel<AppMessageFrame>>::empty());
        }
        r
    }

    /// The home's own profile id.
    pub fn profile_id(&self) -> (r: &ProfileId)
        ensures
            r@ == self.signer.id(),
    {
        self.signer.profile_id()
    }

    /// Why this registration is refused, or `None` where it is accepted:
    /// the profile must carry a persona facet and an id deriving from its
    /// public key; the half-proof must be a `hosted_on_home` one, signed by
    /// the registering profile over its own triple, naming this home as the
    /// peer; and the id must not be hosted here already (re-registration is
    /// refused with [`ErrorKind::Unknown`]; a lost profile is re-obtained
    /// with [`HomeServer::claim`]).
    pub open spec fn register_refusal(&self, own: OwnProfileV, half_proof: RelationHalfProofV) -> Option<ErrorKind> {
        if !(own.profile.facet is Persona) {
            Some(ErrorKind::ProfileValidationFailed)
        } else if !self.validator.id_ok(own.profile.public_key, own.profile.id) {
            Some(ErrorKind::ProfileValidationFailed)
        } else if half_proof.relation_type != "hosted_on_home"@ {
            Some(ErrorKind::RelationValidationFailed)
        } else if half_proof.signer_id != own.profile.id {
            Some(ErrorKind::RelationValidationFailed)
        } else if half_proof.peer_id != self.signer.id() {
            Some(ErrorKind::RelationValidationFailed)
        } else if !self.validator.sig_ok(
            own.profile.public_key,
            half_proof_signable(half_proof),
            half_proof.signature,
        ) {
            Some(ErrorKind::RelationValidationFailed)
        } else if self.is_hosted(own.profile.id) {
            Some(ErrorKind::Unknown)
        } else {
            None
        }
    }

    /// The profile as stored and returned by a successful registration: the
    /// half-proof completed by this home's countersignature, appended to the
    /// persona facet's home proofs.
    pub open spec fn registered_profile(&self, own: OwnProfileV, half_proof: RelationHalfProofV) -> OwnProfileV {
        let facet = own.profile.facet->Persona_0;
        OwnProfileV {
            profile: ProfileV {
                id: own.profile.id,
                public_key: own.profile.public_key,
                facet: ProfileFacetV::Persona(
                    PersonaFacetV {
                        homes: facet.homes.push(completion_of(half_proof, self.signer)),
                        data: facet.data,
                    },
                ),
            },
            priv_data: own.priv_data,
        }
    }

    /// Registers a persona: consumes its `hosted_on_home` half-proof,
    /// completes it with the home's countersignature and stores the profile.
    /// On failure the unmodified profile is returned alongside the error, so
    /// the caller loses nothing. Invitations are not enforced by this
    /// implementation: any persona may register.
    pub fn register(
        &mut self,
        own_prof: OwnProfile,
        half_proof: RelationHalfProof,
        _invite: Option<crate::profile::HomeInvitation>,
    ) -> (r: Result<OwnProfile, (OwnProfile, ErrorKind)>)
        requires
            old(self).wf(),
        ensures
            final(self).wf(),
            r is Ok <==> old(self).register_refusal(own_prof@, half_proof@) is None,
            r matches Err((returned, e)) ==> *final(self) == *old(self) && returned@ == own_prof@
                && Some(e) == old(self).register_refusal(own_prof@, half_proof@),
            r matches Ok(stored) ==> ({
                &&& stored@ == old(self).registered_profile(own_prof@, half_proof@)
                &&& final(self).hosted_view() == old(self).hosted_view().push(
                    HostedProfileV {
                        own_profile: old(self).registered_profile(own_prof@, half_proof@),
                        events: Seq::empty(),
                        active_session: None,
                        checkins: Seq::empty(),
                    },
                )
                &&& final(self).calls_view() == old(self).calls_view()
                &&& final(self).channels_view() == old(self).channels_view()
                &&& final(self).next_session_id == old(self).next_session_id
                &&& final(self).signer == old(self).signer
                &&& final(self).validator == old(self).validator
            }),
    {
        let is_persona = match &own_prof.profile.facet {
            ProfileFacet::Persona(_) => true,
            _ => false,
        };
        if !is_persona {
            return Err((own_prof, ErrorKind::ProfileValidationFailed));
        }
        if !self.validator.validate_profile(&own_prof.profile.public_key, &own_prof.profile.id) {
            return Err((own_prof, ErrorKind::ProfileValidationFailed));
        }
        if !str_eq(
            half_proof.relation_type.as_str(),
            RelationProof::relation_type_hosted_on_home(),
        ) {
            return Err((own_prof, ErrorKind::RelationValidationFailed));
        }
        if !(half_proof.signer_id == own_prof.profile.id) {
            return Err((own_prof, ErrorKind::RelationValidationFailed));
        }
        if !(half_proof.peer_id == *self.signer.profile_id()) {
            return Err((own_prof, ErrorKind::RelationValidationFailed));
        }
        let signable = crate::relation::RelationSignablePart::from_half_proof(
            &half_proof,
        ).serialized();
        if !self.validator.validate_signature(
            &own_prof.profile.public_key,
            signable.as_slice(),
            &half_proof.signature,
        ) {
            return Err((own_prof, ErrorKind::RelationValidationFailed));
        }
        if self.find_hosted(&own_prof.profile.id).is_some() {
            return Err((own_prof, ErrorKind::Unknown));
        }
        let completed = match RelationProof::sign_remaining_half(&half_proof, &self.signer) {
            Ok(proof) => proof,
            Err(_) => {
                return Err((own_prof, ErrorKind::Unknown));
            },
        };
        let ghost own0 = own_prof@;
        let mut own_prof = own_prof;
        match &mut own_prof.profile.facet {
            ProfileFacet::Persona(facet) => {
                facet.homes.push(completed);
            },
            _ => {},
        }
        proof {
            assert(own_prof@.profile.facet->Persona_0.homes =~= own0.profile.facet->Persona_0.homes.push(
                completion_of(half_proof@, self.signer),
            ));
            assert(own_prof@ =~= old(self).registered_profile(own0, half_proof@));
        }
        let stored = own_prof.clone();
        self.hosted.push(
            HostedProfile {
                own_profile: own_prof,
                events: Vec::new(),
                active_session: None,
                checkins: Vec::new(),
            },
        );
        proof {
            let new_entry = HostedProfileV {
                own_profile: old(self).registered_profile(own0, half_proof@),
                events: Seq::empty(),
                active_session: None,
                checkins: Seq::empty(),
            };
            assert(self.hosted_view() =~~= old(self).hosted_view().push(new_entry));
            assert(self.calls_view() =~= old(self).calls_view());
            assert(self.channels_view() =~= old(self).channels_view());
            assert forall|i: int, j: int|
                0 <= i < j < self.hosted_view().len() implies (#[trigger] self.hosted_view()[i]).own_profile.profile.id
                != (#[trigger] self.hosted_view()[j]).own_profile.profile.id by {
                if j == self.hosted_view().len() - 1 {
                    assert(!old(self).is_hosted(own0.profile.id));
                    assert(old(self).hosted_view()[i].own_profile.profile.id != own0.profile.id);
                }
            }
            assert forall|i: int|
                0 <= i < self.hosted_view().len() implies self.entry_wf(
                #[trigger] self.hosted_view()[i],
            ) by {
                if i < old(self).hosted_view().len() {
                    assert(old(self).entry_wf(old(self).hosted_view()[i]));
                }
            }
            assert forall|i: int|
                0 <= i < self.calls_view().len() implies self.call_wf(
                #[trigger] self.calls_view()[i],
            ) by {
                assert(old(self).call_wf(old(self).calls_view()[i]));
            }
        }
        Ok(stored)
    }

    /// Re-obtains control of an already-hosted profile, private payload
    /// included: only the profile's own authenticated connection may claim
    /// it, so a `caller` other than the claimed id fails with
    /// [`ErrorKind::ProfileValidationFailed`].
    pub fn claim(&self, caller: &ProfileId, profile: ProfileId) -> (r: Result<
        OwnProfile,
        ErrorKind,
    >)
        requires
            self.wf(),
        ensures
            r is Ok <==> caller@ == profile@ && self.is_hosted(profile@),
            r matches Ok(own) ==> own@ == self.hosted_entry(profile@).own_profile,
            caller@ != profile@ ==> r == Err::<OwnProfile, ErrorKind>(
                ErrorKind::ProfileValidationFailed,
            ),
            caller@ == profile@ && !self.is_hosted(profile@) ==> r == Err::<OwnProfile, ErrorKind>(
                ErrorKind::LookupFailed,
            ),
    {
        if !(*caller == profile) {
            return Err(ErrorKind::ProfileValidationFailed);
        }
        match self.find_hosted(&profile) {
            Some(index) => Ok(self.hosted[index].own_profile.clone()),
            None => Err(ErrorKind::LookupFailed),
        }
    }

    /// Whether a stored profile carries this exact proof among its persona
    /// facet's home proofs.
    pub open spec fn has_home_proof(own: OwnProfileV, proof: RelationProofV) -> bool {
        own.profile.facet matches ProfileFacetV::Persona(facet) && (exists|i: int|
            0 <= i < facet.homes.len() && facet.homes[i] == proof)
    }

    /// Why this login is refused, or `None` where it is accepted: the proof
    /// must be a `hosted_on_home` relation between this home and a persona,
    /// that persona must be hosted here, and the proof must be the stored
    /// hosting proof; `Unknown` only in the degenerate case of an exhausted
    /// session counter.
    pub open spec fn login_refusal(&self, proof: RelationProofV) -> Option<ErrorKind> {
        if proof.relation_type != "hosted_on_home"@ {
            Some(ErrorKind::RelationValidationFailed)
        } else if !proof_has_side(proof, self.signer.id()) {
            Some(ErrorKind::PeerIdRetreivalFailed)
        } else if !self.is_hosted(peer_view(proof, self.signer.id())) {
            Some(ErrorKind::LookupFailed)
        } else if !Self::has_home_proof(
            self.hosted_entry(peer_view(proof, self.signer.id())).own_profile,
            proof,
        ) {
            Some(ErrorKind::RelationValidationFailed)
        } else if self.next_session_id == u64::MAX {
            Some(ErrorKind::Unknown)
        } else {
            None
        }
    }

    /// Authenticates a persona by its `hosted_on_home` proof and opens a
    /// fresh session for it. Any prior session of the same profile is
    /// silently superseded: its handle stops being active the moment this
    /// login succeeds.
    pub fn login(&mut self, proof_of_home: &RelationProof) -> (r: Result<HomeSession, ErrorKind>)
        requires
            old(self).wf(),
        ensures
            final(self).wf(),
            r is Ok <==> old(self).login_refusal(proof_of_home@) is None,
            r matches Err(e) ==> *final(self) == *old(self) && Some(e) == old(self).login_refusal(
                proof_of_home@,
            ),
            r matches Ok(session) ==> ({
                let persona = peer_view(proof_of_home@, old(self).signer.id());
                let index = old(self).hosted_index_of(persona);
                &&& session@ == (HomeSessionV {
                    profile_id: persona,
                    session_id: old(self).next_session_id,
                })
                &&& final(self).session_active(session@)
                &&& final(self).next_session_id == old(self).next_session_id + 1
                &&& final(self).hosted_view() == old(self).hosted_view().update(
                    index,
                    HostedProfileV {
                        own_profile: old(self).hosted_view()[index].own_profile,
                        events: old(self).hosted_view()[index].events,
                        active_session: Some(old(self).next_session_id),
                        checkins: Seq::empty(),
                    },
                )
                &&& final(self).calls_view() == old(self).calls_view()
                &&& final(self).channels_view() == old(self).channels_view()
                &&& final(self).signer == old(self).signer
                &&& final(self).validator == old(self).validator
            }),
    {
        if !str_eq(
            proof_of_home.relation_type.as_str(),
            RelationProof::relation_type_hosted_on_home(),
        ) {
            return Err(ErrorKind::RelationValidationFailed);
        }
        let persona_id = match proof_of_home.peer_id(self.signer.profile_id()) {
            Ok(peer) => peer.clone(),
            Err(e) => {
                return Err(e);
            },
        };
        let index = match self.find_hosted(&persona_id) {
            Some(index) => index,
            None => {
                return Err(ErrorKind::LookupFailed);
            },
        };
        let has_proof = {
            let homes = match &self.hosted[index].own_profile.profile.facet {
                ProfileFacet::Persona(facet) => Some(&facet.homes),
                _ => None,
            };
            match homes {
                Some(homes) => {
                    let mut found = false;
                    let mut i: usize = 0;
                    while i < homes.len()
                        invariant
                            i <= homes.len(),
                            found <==> (exists|j: int|
                                0 <= j < i && #[trigger] homes@[j]@ == proof_of_home@),
                        decreases homes.len() - i,
                    {
                        if homes[i] == *proof_of_home {
                            found = true;
                            proof {
                                assert(homes@[i as int]@ == proof_of_home@);
                            }
                        }
                        i += 1;
                    }
                    proof {
                        let own_v = self.hosted_view()[index as int].own_profile;
                        assert(own_v.profile.facet is Persona);
                        let homes_v = own_v.profile.facet->Persona_0.homes;
                        assert(homes_v =~= homes.deep_view());
                        assert forall|j: int|
                            0 <= j < homes@.len() implies #[trigger] homes_v[j] == homes@[j]@ by {
                            assert(homes.deep_view()[j] == homes@[j]@);
                        }
                        if found {
                            let j = choose|j: int|
                                0 <= j < homes@.len() && #[trigger] homes@[j]@ == proof_of_home@;
                            assert(homes_v[j] == proof_of_home@);
                            assert(Self::has_home_proof(own_v, proof_of_home@));
                        } else {
                            assert forall|j: int|
                                0 <= j < homes_v.len() implies #[trigger] homes_v[j]
                                != proof_of_home@ by {
                                assert(homes_v[j] == homes@[j]@);
                            }
                            assert(!Self::has_home_proof(own_v, proof_of_home@));
                        }
                    }
                    found
                },
                None => false,
            }
        };
        proof {
            assert(has_proof <==> Self::has_home_proof(
                self.hosted_view()[index as int].own_profile,
                proof_of_home@,
            ));
        }
        if !has_proof {
            return Err(ErrorKind::RelationValidationFailed);
        }
        if self.next_session_id == u64::MAX {
            return Err(ErrorKind::Unknown);
        }
        let session_id = self.next_session_id;
        self.hosted[index].active_session = Some(session_id);
        self.hosted[index].checkins = Vec::new();
        self.next_session_id = session_id + 1;
        let session = HomeSession { profile_id: persona_id, session_id };
        proof {
            let persona = peer_view(proof_of_home@, old(self).signer.id());
            let index_spec = old(self).hosted_index_of(persona);
            assert(index_spec == index as int);
            assert(self.hosted_view() =~~= old(self).hosted_view().update(
                index_spec,
                HostedProfileV {
                    own_profile: old(self).hosted_view()[index_spec].own_profile,
                    events: old(self).hosted_view()[index_spec].events,
                    active_session: Some(old(self).next_session_id),
                    checkins: Seq::empty(),
                },
            ));
            assert(self.calls_view() =~= old(self).calls_view());
            assert(self.channels_view() =~= old(self).channels_view());
            self.lemma_hosted_index_is(persona, index as int);
            assert forall|i: int|
                0 <= i < self.hosted_view().len() implies self.entry_wf(
                #[trigger] self.hosted_view()[i],
            ) by {
                assert(old(self).entry_wf(old(self).hosted_view()[i]));
            }
            assert forall|i: int|
                0 <= i < self.calls_view().len() implies self.call_wf(
                #[trigger] self.calls_view()[i],
            ) by {
                assert(old(self).call_wf(old(self).calls_view()[i]));
            }
        }
        Ok(session)
    }

    /// The index of the hosted entry whose live session this handle is, if
    /// it is live.
    fn find_session(&self, session: &HomeSession) -> (r: Option<usize>)
        requires
            self.wf(),
        ensures
            r is Some <==> self.session_active(session@),
            r matches Some(i) ==> (i as int) == self.hosted_index_of(session@.profile_id),
    {
        match self.find_hosted(&session.profile_id) {
            Some(index) => {
                let live = match self.hosted[index].active_session {
                    Some(active) => active == session.session_id,
                    None => false,
                };
                if live {
                    Some(index)
                } else {
                    None
                }
            },
            None => None,
        }
    }

    /// Echoes `txt`: a liveness probe validating the duplex channel end to
    /// end. Fails with [`ErrorKind::SessionClosed`] on a stale handle, like
    /// every session operation.
    pub fn ping(&self, session: &HomeSession, txt: &str) -> (r: Result<String, ErrorKind>)
        requires
            self.wf(),
        ensures
            r is Ok <==> self.session_active(session@),
            r matches Ok(pong) ==> pong@ == txt@,
            r matches Err(e) ==> e == ErrorKind::SessionClosed,
    {
        match self.find_session(session) {
            Some(_) => Ok(txt.to_owned()),
            None => Err(ErrorKind::SessionClosed),
        }
    }

    /// The next queued event for this session, oldest first, or `None`
    /// where the queue is empty right now; events arrive in production
    /// order and none is dropped.
    pub fn events_next(&mut self, session: &HomeSession) -> (r: Result<
        Option<ProfileEvent>,
        ErrorKind,
    >)
        requires
            old(self).wf(),
        ensures
            final(self).wf(),
            r is Ok <==> old(self).session_active(session@),
            r matches Err(e) ==> e == ErrorKind::SessionClosed && *final(self) == *old(self),
            r matches Ok(event_opt) ==> ({
                let index = old(self).hosted_index_of(session@.profile_id);
                let entry = old(self).hosted_view()[index];
                &&& (event_opt is Some <==> entry.events.len() > 0)
                &&& (event_opt is None ==> *final(self) == *old(self))
                &&& (event_opt matches Some(event) ==> {
                    &&& event@ == entry.events[0]
                    &&& final(self).hosted_view() == old(self).hosted_view().update(
                        index,
                        HostedProfileV { events: entry.events.drop_first(), ..entry },
                    )
                    &&& final(self).calls_view() == old(self).calls_view()
                    &&& final(self).channels_view() == old(self).channels_view()
                    &&& final(self).next_session_id == old(self).next_session_id
                    &&& final(self).signer == old(self).signer
                    &&& final(self).validator == old(self).validator
                })
            }),
    {
        let index = match self.find_session(session) {
            Some(index) => index,
            None => {
                return Err(ErrorKind::SessionClosed);
            },
        };
        if self.hosted[index].events.len() == 0 {
            return Ok(None);
        }
        let event = self.hosted[index].events.remove(0);
        proof {
            let index_spec = old(self).hosted_index_of(session@.profile_id);
            let entry = old(self).hosted_view()[index_spec];
            assert(self.hosted_view() =~~= old(self).hosted_view().update(
                index_spec,
                HostedProfileV { events: entry.events.drop_first(), ..entry },
            ));
            assert(self.calls_view() =~= old(self).calls_view());
            assert(self.channels_view() =~= old(self).channels_view());
            assert forall|i: int|
                0 <= i < self.hosted_view().len() implies self.entry_wf(
                #[trigger] self.hosted_view()[i],
            ) by {
                assert(old(self).entry_wf(old(self).hosted_view()[i]));
            }
            assert forall|i: int|
                0 <= i < self.calls_view().len() implies self.call_wf(
                #[trigger] self.calls_view()[i],
            ) by {
                assert(old(self).call_wf(old(self).calls_view()[i]));
            }
        }
        Ok(Some(event))
    }

    /// The home proofs stored in a profile's persona facet, or none where
    /// the facet is of another kind.
    pub open spec fn home_proofs_of(own: OwnProfileV) -> Seq<RelationProofV> {
        if own.profile.facet is Persona {
            own.profile.facet->Persona_0.homes
        } else {
            Seq::empty()
        }
    }

    /// The stored profile an accepted update leaves: the offered profile,
    /// except that the home-controlled hosting proofs stay what they were.
    pub open spec fn updated_profile(stored: OwnProfileV, offered: OwnProfileV) -> OwnProfileV {
        OwnProfileV {
            profile: ProfileV {
                id: offered.profile.id,
                public_key: offered.profile.public_key,
                facet: ProfileFacetV::Persona(
                    PersonaFacetV {
                        homes: Self::home_proofs_of(stored),
                        data: offered.profile.facet->Persona_0.data,
                    },
                ),
            },
            priv_data: offered.priv_data,
        }
    }

    /// Pushes a modified profile. The offered profile must name the
    /// session's own id and carry a persona facet; the stored hosting
    /// proofs are kept, never discarded by an update.
    pub fn update(&mut self, session: &HomeSession, own_prof: OwnProfile) -> (r: Result<
        (),
        ErrorKind,
    >)
        requires
            old(self).wf(),
        ensures
            final(self).wf(),
            r is Err ==> *final(self) == *old(self),
            !old(self).session_active(session@) ==> r == Err::<(), ErrorKind>(
                ErrorKind::SessionClosed,
            ),
            old(self).session_active(session@) && (own_prof@.profile.id != session@.profile_id
                || !(own_prof@.profile.facet is Persona)) ==> r == Err::<(), ErrorKind>(
                ErrorKind::ProfileValidationFailed,
            ),
            old(self).session_active(session@) && own_prof@.profile.id == session@.profile_id && (
            own_prof@.profile.facet is Persona) ==> ({
                let index = old(self).hosted_index_of(session@.profile_id);
                let entry = old(self).hosted_view()[index];
                &&& r is Ok
                &&& final(self).hosted_view() == old(self).hosted_view().update(
                    index,
                    HostedProfileV {
                        own_profile: Self::updated_profile(entry.own_profile, own_prof@),
                        ..entry
                    },
                )
                &&& final(self).calls_view() == old(self).calls_view()
                &&& final(self).channels_view() == old(self).channels_view()
                &&& final(self).next_session_id == old(self).next_session_id
                &&& final(self).signer == old(self).signer
                &&& final(self).validator == old(self).validator
            }),
    {
        let index = match self.find_session(session) {
            Some(index) => index,
            None => {
                return Err(ErrorKind::SessionClosed);
            },
        };
        if !(own_prof.profile.id == session.profile_id) {
            return Err(ErrorKind::ProfileValidationFailed);
        }
        let offered_is_persona = match &own_prof.profile.facet {
            ProfileFacet::Persona(_) => true,
            _ => false,
        };
        if !offered_is_persona {
            return Err(ErrorKind::ProfileValidationFailed);
        }
        let stored_homes = match &self.hosted[index].own_profile.profile.facet {
            ProfileFacet::Persona(facet) => crate::profile::clone_proofs(&facet.homes),
            _ => Vec::new(),
        };
        proof {
            assert(stored_homes.deep_view() =~= Self::home_proofs_of(
                old(self).hosted_view()[index as int].own_profile,
            ));
        }
        let mut own_prof = own_prof;
        match &mut own_prof.profile.facet {
            ProfileFacet::Persona(facet) => {
                facet.homes = stored_homes;
            },
            _ => {},
        }
        self.hosted[index].own_profile = own_prof;
        proof {
            let index_spec = old(self).hosted_index_of(session@.profile_id);
            let entry = old(self).hosted_view()[index_spec];
            assert(self.hosted_view() =~~= old(self).hosted_view().update(
                index_spec,
                HostedProfileV {
                    own_profile: Self::updated_profile(entry.own_profile, own_prof@),
                    ..entry
                },
            ));
            assert(self.calls_view() =~= old(self).calls_view());
            assert(self.channels_view() =~= old(self).channels_view());
            assert forall|i: int|
                0 <= i < self.hosted_view().len() implies self.entry_wf(
                #[trigger] self.hosted_view()[i],
            ) by {
                assert(old(self).entry_wf(old(self).hosted_view()[i]));
            }
            assert forall|i: int|
                0 <= i < self.calls_view().len() implies self.call_wf(
                #[trigger] self.calls_view()[i],
            ) by {
                assert(old(self).call_wf(old(self).calls_view()[i]));
            }
        }
        Ok(())
    }

    /// Terminates hosting: the profile is removed and its session ends, and
    /// nothing else changes — in particular, no event is queued for anyone.
    /// Relation peers should eventually learn of a relocation when
    /// `_newhome` is given; this home cannot deliver that notice, because
    /// relations are held by the personas, not by their homes, so it does
    /// not know who the peers are. Like the cross-home pairing response,
    /// peer notification is an open boundary left to a collaborator, and
    /// `_newhome` is accepted but not acted on.
    pub fn unregister(&mut self, session: &HomeSession, _newhome: Option<Profile>) -> (r: Result<
        (),
        ErrorKind,
    >)
        requires
            old(self).wf(),
        ensures
            final(self).wf(),
            r is Ok <==> old(self).session_active(session@),
            r matches Err(e) ==> e == ErrorKind::SessionClosed && *final(self) == *old(self),
            r is Ok ==> ({
                let index = old(self).hosted_index_of(session@.profile_id);
                &&& final(self).hosted_view() == old(self).hosted_view().remove(index)
                &&& final(self).calls_view() == old(self).calls_view()
                &&& final(self).channels_view() == old(self).channels_view()
                &&& final(self).next_session_id == old(self).next_session_id
                &&& final(self).signer == old(self).signer
                &&& final(self).validator == old(self).validator
            }),
    {
        let index = match self.find_session(session) {
            Some(index) => index,
            None => {
                return Err(ErrorKind::SessionClosed);
            },
        };
        self.hosted.remove(index);
        proof {
            let index_spec = old(self).hosted_index_of(session@.profile_id);
            assert(self.hosted_view() =~~= old(self).hosted_view().remove(index_spec));
            assert(self.calls_view() =~= old(self).calls_view());
            assert(self.channels_view() =~= old(self).channels_view());
            assert forall|i: int|
                0 <= i < self.hosted_view().len() implies self.entry_wf(
                #[trigger] self.hosted_view()[i],
            ) by {
                if i < index_spec {
                    assert(old(self).entry_wf(old(self).hosted_view()[i]));
                } else {
                    assert(old(self).entry_wf(old(self).hosted_view()[i + 1]));
                }
            }
            assert forall|i: int, j: int|
                0 <= i < j < self.hosted_view().len() implies (#[trigger] self.hosted_view()[i]).own_profile.profile.id
                != (#[trigger] self.hosted_view()[j]).own_profile.profile.id by {
                let iold: int = if i < index_spec { i } else { i + 1 };
                let jold: int = if j < index_spec { j } else { j + 1 };
                assert(old(self).hosted_view()[iold].own_profile.profile.id != old(self).hosted_view()[jold].own_profile.profile.id);
            }
            assert forall|i: int|
                0 <= i < self.calls_view().len() implies self.call_wf(
                #[trigger] self.calls_view()[i],
            ) by {
                assert(old(self).call_wf(old(self).calls_view()[i]));
            }
        }
        Ok(())
    }

    /// Whether this entry's session is checked in for `app`.
    pub open spec fn has_checkin(entry: HostedProfileV, app: Seq<char>) -> bool {
        exists|j: int| 0 <= j < entry.checkins.len() && (#[trigger] entry.checkins[j]).app == app
    }

    /// The index of this entry's check-in for `app`; meaningful where
    /// [`HomeServer::has_checkin`] holds, unique under [`HomeServer::wf`].
    pub open spec fn checkin_index_of(entry: HostedProfileV, app: Seq<char>) -> int {
        choose|j: int| 0 <= j < entry.checkins.len() && (#[trigger] entry.checkins[j]).app == app
    }

    /// Subscribes the session to incoming calls for `app`; checking in for
    /// an application the session is already checked in for changes
    /// nothing.
    pub fn checkin_app(&mut self, session: &HomeSession, app: &ApplicationId) -> (r: Result<
        (),
        ErrorKind,
    >)
        requires
            old(self).wf(),
        ensures
            final(self).wf(),
            r is Ok <==> old(self).session_active(session@),
            r matches Err(e) ==> e == ErrorKind::SessionClosed && *final(self) == *old(self),
            r is Ok ==> ({
                let index = old(self).hosted_index_of(session@.profile_id);
                let entry = old(self).hosted_view()[index];
                &&& (Self::has_checkin(entry, app@) ==> *final(self) == *old(self))
                &&& (!Self::has_checkin(entry, app@) ==> {
                    &&& final(self).hosted_view() == old(self).hosted_view().update(
                        index,
                        HostedProfileV {
                            checkins: entry.checkins.push(
                                AppCheckinV { app: app@, pending: Seq::empty() },
                            ),
                            ..entry
                        },
                    )
                    &&& final(self).calls_view() == old(self).calls_view()
                    &&& final(self).channels_view() == old(self).channels_view()
                    &&& final(self).next_session_id == old(self).next_session_id
                    &&& final(self).signer == old(self).signer
                    &&& final(self).validator == old(self).validator
                })
            }),
    {
        let index = match self.find_session(session) {
            Some(index) => index,
            None => {
                return Err(ErrorKind::SessionClosed);
            },
        };
        let checkin_count = self.hosted[index].checkins.len();
        let mut j: usize = 0;
        while j < checkin_count
            invariant
                *self == *old(self),
                self.wf(),
                old(self).session_active(session@),
                (index as int) == old(self).hosted_index_of(session@.profile_id),
                0 <= index < self.hosted@.len(),
                checkin_count == self.hosted_view()[index as int].checkins.len(),
                j <= checkin_count,
                forall|k: int|
                    0 <= k < j ==> (#[trigger] self.hosted_view()[index as int].checkins[k]).app
                        != app@,
            decreases checkin_count - j,
        {
            if self.hosted[index].checkins[j].app == *app {
                proof {
                    assert(self.hosted_view()[index as int].checkins[j as int].app == app@);
                    assert(Self::has_checkin(self.hosted_view()[index as int], app@));
                }
                return Ok(());
            }
            j += 1;
        }
        self.hosted[index].checkins.push(AppCheckin { app: app.clone(), pending: Vec::new() });
        proof {
            let index_spec = old(self).hosted_index_of(session@.profile_id);
            let entry = old(self).hosted_view()[index_spec];
            assert(!Self::has_checkin(entry, app@));
            assert(self.hosted_view() =~~= old(self).hosted_view().update(
                index_spec,
                HostedProfileV {
                    checkins: entry.checkins.push(AppCheckinV { app: app@, pending: Seq::empty() }),
                    ..entry
                },
            ));
            assert(self.calls_view() =~= old(self).calls_view());
            assert(self.channels_view() =~= old(self).channels_view());
            assert forall|i: int|
                0 <= i < self.hosted_view().len() implies self.entry_wf(
                #[trigger] self.hosted_view()[i],
            ) by {
                assert(old(self).entry_wf(old(self).hosted_view()[i]));
                if i == index_spec {
                    assert forall|a: int, b: int|
                        0 <= a < b < self.hosted_view()[i].checkins.len() implies (
                        #[trigger] self.hosted_view()[i].checkins[a]).app
                        != (#[trigger] self.hosted_view()[i].checkins[b]).app by {
                        if b == self.hosted_view()[i].checkins.len() - 1 {
                            assert(entry.checkins[a].app != app@);
                        }
                    }
                }
            }
            assert forall|i: int|
                0 <= i < self.calls_view().len() implies self.call_wf(
                #[trigger] self.calls_view()[i],
            ) by {
                assert(old(self).call_wf(old(self).calls_view()[i]));
            }
        }
        Ok(())
    }

    /// The next call waiting in the session's check-in stream for `app`,
    /// oldest first, or `None` where none waits right now. Fails with
    /// [`ErrorKind::LookupFailed`] where the session is not checked in for
    /// `app`.
    pub fn incoming_next(&mut self, session: &HomeSession, app: &ApplicationId) -> (r: Result<
        Option<IncomingCall>,
        ErrorKind,
    >)
        requires
            old(self).wf(),
        ensures
            final(self).wf(),
            !old(self).session_active(session@) ==> r == Err::<Option<IncomingCall>, ErrorKind>(
                ErrorKind::SessionClosed,
            ) && *final(self) == *old(self),
            r is Err ==> *final(self) == *old(self),
            old(self).session_active(session@) ==> ({
                let index = old(self).hosted_index_of(session@.profile_id);
                let entry = old(self).hosted_view()[index];
                &&& (r is Ok <==> Self::has_checkin(entry, app@))
                &&& (!Self::has_checkin(entry, app@) ==> r == Err::<
                    Option<IncomingCall>,
                    ErrorKind,
                >(ErrorKind::LookupFailed))
                &&& (r matches Ok(call_opt) ==> {
                    let checkin_index = Self::checkin_index_of(entry, app@);
                    let pending = entry.checkins[checkin_index].pending;
                    &&& (call_opt is Some <==> pending.len() > 0)
                    &&& (call_opt is None ==> *final(self) == *old(self))
                    &&& (call_opt matches Some(call) ==> {
                        &&& call.call_id() == pending[0]
                        &&& (call.call_id() as int) < old(self).calls_view().len()
                        &&& final(self).hosted_view() == old(self).hosted_view().update(
                            index,
                            HostedProfileV {
                                checkins: entry.checkins.update(
                                    checkin_index,
                                    AppCheckinV { app: app@, pending: pending.drop_first() },
                                ),
                                ..entry
                            },
                        )
                        &&& final(self).calls_view() == old(self).calls_view()
                        &&& final(self).channels_view() == old(self).channels_view()
                        &&& final(self).next_session_id == old(self).next_session_id
                        &&& final(self).signer == old(self).signer
                        &&& final(self).validator == old(self).validator
                    })
                })
            }),
    {
        let index = match self.find_session(session) {
            Some(index) => index,
            None => {
                return Err(ErrorKind::SessionClosed);
            },
        };
        let checkin_count = self.hosted[index].checkins.len();
        let mut j: usize = 0;
        while j < checkin_count
            invariant
                *self == *old(self),
                self.wf(),
                old(self).session_active(session@),
                (index as int) == old(self).hosted_index_of(session@.profile_id),
                0 <= index < self.hosted@.len(),
                checkin_count == self.hosted_view()[index as int].checkins.len(),
                j <= checkin_count,
                forall|k: int|
                    0 <= k < j ==> (#[trigger] self.hosted_view()[index as int].checkins[k]).app
                        != app@,
            decreases checkin_count - j,
        {
            if self.hosted[index].checkins[j].app == *app {
                proof {
                    let entry = self.hosted_view()[index as int];
                    assert(entry.checkins[j as int].app == app@);
                    Self::lemma_checkin_index_is(self, entry, app@, j as int);
                }
                if self.hosted[index].checkins[j].pending.len() == 0 {
                    return Ok(None);
                }
                let call_id = self.hosted[index].checkins[j].pending.remove(0);
                proof {
                    let index_spec = old(self).hosted_index_of(session@.profile_id);
                    let entry = old(self).hosted_view()[index_spec];
                    let checkin_index = Self::checkin_index_of(entry, app@);
                    assert(checkin_index == j as int);
                    let pending = entry.checkins[checkin_index].pending;
                    assert(self.hosted_view() =~~= old(self).hosted_view().update(
                        index_spec,
                        HostedProfileV {
                            checkins: entry.checkins.update(
                                checkin_index,
                                AppCheckinV { app: app@, pending: pending.drop_first() },
                            ),
                            ..entry
                        },
                    ));
                    assert(self.calls_view() =~= old(self).calls_view());
                    assert(self.channels_view() =~= old(self).channels_view());
                    assert forall|i: int|
                        0 <= i < self.hosted_view().len() implies self.entry_wf(
                        #[trigger] self.hosted_view()[i],
                    ) by {
                        assert(old(self).entry_wf(old(self).hosted_view()[i]));
                    }
                    assert forall|i: int|
                        0 <= i < self.calls_view().len() implies self.call_wf(
                        #[trigger] self.calls_view()[i],
                    ) by {
                        assert(old(self).call_wf(old(self).calls_view()[i]));
                    }
                }
                return Ok(Some(IncomingCall { call_id }));
            }
            j += 1;
        }
        Err(ErrorKind::LookupFailed)
    }

    /// If a check-in at `j` names `app`, then under [`HomeServer::wf`] it
    /// is the check-in [`HomeServer::checkin_index_of`] picks.
    proof fn lemma_checkin_index_is(&self, entry: HostedProfileV, app: Seq<char>, j: int)
        requires
            self.wf(),
            exists|i: int|
                0 <= i < self.hosted_view().len() && #[trigger] self.hosted_view()[i] == entry,
            0 <= j < entry.checkins.len(),
            entry.checkins[j].app == app,
        ensures
            Self::has_checkin(entry, app),
            Self::checkin_index_of(entry, app) == j,
    {
        assert(Self::has_checkin(entry, app));
        let k = Self::checkin_index_of(entry, app);
        let i = choose|i: int|
            0 <= i < self.hosted_view().len() && #[trigger] self.hosted_view()[i] == entry;
        assert(self.entry_wf(self.hosted_view()[i]));
        if j < k {
            assert(entry.checkins[j].app != entry.checkins[k].app);
        } else if k < j {
            assert(entry.checkins[k].app != entry.checkins[j].app);
        }
    }

    /// Queues `event` for the hosted entry at `index`, which is the entry
    /// [`HomeServer::hosted_index_of`] picks for `id`.
    fn push_event(&mut self, index: usize, event: ProfileEvent, Ghost(id): Ghost<Seq<u8>>)
        requires
            old(self).wf(),
            (index as int) == old(self).hosted_index_of(id),
            0 <= index < old(self).hosted@.len(),
        ensures
            final(self).wf(),
            final(self).hosted_view() == old(self).hosted_view().update(
                index as int,
                HostedProfileV {
                    events: old(self).hosted_view()[index as int].events.push(event@),
                    ..old(self).hosted_view()[index as int]
                },
            ),
            final(self).calls_view() == old(self).calls_view(),
            final(self).channels_view() == old(self).channels_view(),
            final(self).next_session_id == old(self).next_session_id,
            final(self).signer == old(self).signer,
            final(self).validator == old(self).validator,
    {
        let ghost event_v = event@;
        self.hosted[index].events.push(event);
        proof {
            assert(self.hosted_view() =~~= old(self).hosted_view().update(
                index as int,
                HostedProfileV {
                    events: old(self).hosted_view()[index as int].events.push(event_v),
                    ..old(self).hosted_view()[index as int]
                },
            ));
            assert(self.calls_view() =~= old(self).calls_view());
            assert(self.channels_view() =~= old(self).channels_view());
            assert forall|i: int|
                0 <= i < self.hosted_view().len() implies self.entry_wf(
                #[trigger] self.hosted_view()[i],
            ) by {
                assert(old(self).entry_wf(old(self).hosted_view()[i]));
            }
            assert forall|i: int|
                0 <= i < self.calls_view().len() implies self.call_wf(
                #[trigger] self.calls_view()[i],
            ) by {
                assert(old(self).call_wf(old(self).calls_view()[i]));
            }
        }
    }

    /// A pairing request from a peer, submitted to the home hosting the
    /// half-proof's designated peer: fails with
    /// [`ErrorKind::LookupFailed`] where that peer is not hosted here; on
    /// success a [`ProfileEvent::PairingRequest`] is queued for the peer —
    /// delivered to its live session, or kept while it is offline.
    pub fn pair_request(&mut self, half_proof: RelationHalfProof) -> (r: Result<(), ErrorKind>)
        requires
            old(self).wf(),
        ensures
            final(self).wf(),
            r is Ok <==> old(self).is_hosted(half_proof@.peer_id),
            r matches Err(e) ==> e == ErrorKind::LookupFailed && *final(self) == *old(self),
            r is Ok ==> ({
                let index = old(self).hosted_index_of(half_proof@.peer_id);
                &&& final(self).hosted_view() == old(self).hosted_view().update(
                    index,
                    HostedProfileV {
                        events: old(self).hosted_view()[index].events.push(
                            ProfileEventV::PairingRequest(half_proof@),
                        ),
                        ..old(self).hosted_view()[index]
                    },
                )
                &&& final(self).calls_view() == old(self).calls_view()
                &&& final(self).channels_view() == old(self).channels_view()
                &&& final(self).next_session_id == old(self).next_session_id
                &&& final(self).signer == old(self).signer
                &&& final(self).validator == old(self).validator
            }),
    {
        let ghost peer = half_proof@.peer_id;
        let index = match self.find_hosted(&half_proof.peer_id) {
            Some(index) => index,
            None => {
                return Err(ErrorKind::LookupFailed);
            },
        };
        self.push_event(index, ProfileEvent::PairingRequest(half_proof), Ghost(peer));
        Ok(())
    }

    /// A completed pairing returned by the acceptor: forwarded as a
    /// [`ProfileEvent::PairingResponse`] toward the initiator, the proof's
    /// other side as seen from the authenticated `caller`. Fails with
    /// [`ErrorKind::PeerIdRetreivalFailed`] where the caller is no side of
    /// the proof, and with [`ErrorKind::LookupFailed`] where the initiator
    /// is not hosted here (pairing across homes is an open boundary of the
    /// protocol).
    pub fn pair_response(&mut self, caller: &ProfileId, proof: RelationProof) -> (r: Result<
        (),
        ErrorKind,
    >)
        requires
            old(self).wf(),
        ensures
            final(self).wf(),
            r is Err ==> *final(self) == *old(self),
            !proof_has_side(proof@, caller@) ==> r == Err::<(), ErrorKind>(
                ErrorKind::PeerIdRetreivalFailed,
            ),
            proof_has_side(proof@, caller@) && !old(self).is_hosted(peer_view(proof@, caller@))
                ==> r == Err::<(), ErrorKind>(ErrorKind::LookupFailed),
            proof_has_side(proof@, caller@) && old(self).is_hosted(peer_view(proof@, caller@))
                ==> ({
                let target = peer_view(proof@, caller@);
                let index = old(self).hosted_index_of(target);
                &&& r is Ok
                &&& final(self).hosted_view() == old(self).hosted_view().update(
                    index,
                    HostedProfileV {
                        events: old(self).hosted_view()[index].events.push(
                            ProfileEventV::PairingResponse(proof@),
                        ),
                        ..old(self).hosted_view()[index]
                    },
                )
                &&& final(self).calls_view() == old(self).calls_view()
                &&& final(self).channels_view() == old(self).channels_view()
                &&& final(self).next_session_id == old(self).next_session_id
                &&& final(self).signer == old(self).signer
                &&& final(self).validator == old(self).validator
            }),
    {
        let target = match proof.peer_id(caller) {
            Ok(peer) => peer.clone(),
            Err(e) => {
                return Err(e);
            },
        };
        let index = match self.find_hosted(&target) {
            Some(index) => index,
            None => {
                return Err(ErrorKind::LookupFailed);
            },
        };
        self.push_event(index, ProfileEvent::PairingResponse(proof), Ghost(target@));
        Ok(())
    }

    /// Why this call is refused outright, or `None` where it can be
    /// routed: the relation must authorize the called application, and the
    /// callee — the relation's other side as seen from the caller — must be
    /// hosted here.
    pub open spec fn call_refusal(&self, caller: Seq<u8>, app: Seq<char>, request: CallRequestDetailsV) -> Option<ErrorKind> {
        if request.relation.relation_type != app {
            Some(ErrorKind::RelationValidationFailed)
        } else if !proof_has_side(request.relation, caller) {
            Some(ErrorKind::PeerIdRetreivalFailed)
        } else if !self.is_hosted(peer_view(request.relation, caller)) {
            Some(ErrorKind::LookupFailed)
        } else {
            None
        }
    }

    /// Whether the hosted callee can take a call for `app` right now: it
    /// has a live session checked in for `app`.
    pub open spec fn callee_ready(&self, callee: Seq<u8>, app: Seq<char>) -> bool {
        let entry = self.hosted_entry(callee);
        entry.active_session is Some && Self::has_checkin(entry, app)
    }

    /// Routes a call to a persona hosted here. A callee that is not
    /// checked in for the application right now is a missed call: a
    /// defined non-error outcome, `Ok(None)`, never an error. On success
    /// the call is delivered into the callee's check-in stream and its id
    /// returned; the caller learns the callee's answer from
    /// [`HomeServer::call_response`].
    #[verifier::rlimit(60)]
    pub fn call(&mut self, caller: &ProfileId, app: &ApplicationId, call_req: CallRequestDetails) -> (r: Result<
        Option<u64>,
        ErrorKind,
    >)
        requires
            old(self).wf(),
            call_req@.to_caller matches Some(h) ==> (h as int) < old(self).channels_view().len(),
        ensures
            final(self).wf(),
            r is Err <==> old(self).call_refusal(caller@, app@, call_req@) is Some,
            r matches Err(e) ==> Some(e) == old(self).call_refusal(caller@, app@, call_req@)
                && *final(self) == *old(self),
            r is Ok ==> ({
                let callee = peer_view(call_req@.relation, caller@);
                let index = old(self).hosted_index_of(callee);
                let entry = old(self).hosted_view()[index];
                &&& (r == Ok::<Option<u64>, ErrorKind>(None) <==> !old(self).callee_ready(
                    callee,
                    app@,
                ))
                &&& (!old(self).callee_ready(callee, app@) ==> *final(self) == *old(self))
                &&& (old(self).callee_ready(callee, app@) ==> ({
                    let checkin_index = Self::checkin_index_of(entry, app@);
                    let call_id = old(self).calls_view().len() as u64;
                    &&& r == Ok::<Option<u64>, ErrorKind>(Some(call_id))
                    &&& final(self).calls_view() == old(self).calls_view().push(
                        PendingCallV {
                            request: call_req@,
                            caller_id: caller@,
                            callee_id: callee,
                            answered: None,
                        },
                    )
                    &&& final(self).hosted_view() == old(self).hosted_view().update(
                        index,
                        HostedProfileV {
                            checkins: entry.checkins.update(
                                checkin_index,
                                AppCheckinV {
                                    app: app@,
                                    pending: entry.checkins[checkin_index].pending.push(call_id),
                                },
                            ),
                            ..entry
                        },
                    )
                    &&& final(self).channels_view() == old(self).channels_view()
                    &&& final(self).next_session_id == old(self).next_session_id
                    &&& final(self).signer == old(self).signer
                    &&& final(self).validator == old(self).validator
                }))
            }),
    {
        if !call_req.relation.accessible_by(app) {
            return Err(ErrorKind::RelationValidationFailed);
        }
        let callee = match call_req.relation.peer_id(caller) {
            Ok(peer) => peer.clone(),
            Err(e) => {
                return Err(e);
            },
        };
        let index = match self.find_hosted(&callee) {
            Some(index) => index,
            None => {
                return Err(ErrorKind::LookupFailed);
            },
        };
        let ghost request_v = call_req@;
        let ghost callee_v = callee@;
        let logged_in = match self.hosted[index].active_session {
            Some(_) => true,
            None => false,
        };
        if !logged_in {
            proof {
                assert(!self.callee_ready(callee@, app@));
            }
            return Ok(None);
        }
        proof {
            assert(old(self).call_refusal(caller@, app@, request_v) is None);
        }
        let checkin_count = self.hosted[index].checkins.len();
        let mut j: usize = 0;
        while j < checkin_count
            invariant
                *self == *old(self),
                self.wf(),
                call_req@ == request_v,
                old(self).call_refusal(caller@, app@, request_v) is None,
                callee@ == callee_v,
                callee_v == peer_view(request_v.relation, caller@),
                (request_v.to_caller matches Some(h) ==> (h as int) < old(self).channels_view().len()),
                old(self).is_hosted(callee_v),
                (index as int) == old(self).hosted_index_of(callee_v),
                old(self).hosted_view()[index as int].active_session is Some,
                0 <= index < self.hosted@.len(),
                checkin_count == self.hosted_view()[index as int].checkins.len(),
                j <= checkin_count,
                forall|k: int|
                    0 <= k < j ==> (#[trigger] self.hosted_view()[index as int].checkins[k]).app
                        != app@,
            decreases checkin_count - j,
        {
            if self.hosted[index].checkins[j].app == *app {
                proof {
                    let entry = self.hosted_view()[index as int];
                    assert(entry.checkins[j as int].app == app@);
                    Self::lemma_checkin_index_is(self, entry, app@, j as int);
                    assert(self.callee_ready(callee_v, app@));
                }
                let ghost entry = old(self).hosted_view()[index as int];
                let ghost checkin_index = Self::checkin_index_of(entry, app@);
                let call_id = self.calls.len() as u64;
                self.calls.push(
                    PendingCall {
                        request: call_req,
                        caller_id: caller.clone(),
                        callee_id: callee,
                        answered: None,
                    },
                );
                self.hosted[index].checkins[j].pending.push(call_id);
                proof {
                    let new_call = PendingCallV {
                        request: request_v,
                        caller_id: caller@,
                        callee_id: callee_v,
                        answered: None,
                    };
                    assert(self.calls@.len() == old(self).calls@.len() + 1);
                    assert(self.calls@[old(self).calls@.len() as int]@.request =~~= request_v);
                    assert(self.calls@[old(self).calls@.len() as int]@ =~~= new_call);
                    assert forall|i: int|
                        0 <= i < old(self).calls@.len() implies #[trigger] self.calls_view()[i]
                        == old(self).calls_view()[i] by {
                        assert(self.calls@[i] == old(self).calls@[i]);
                    }
                    assert(self.calls_view() =~~= old(self).calls_view().push(new_call));
                    assert(self.hosted_view() =~~= old(self).hosted_view().update(
                        index as int,
                        HostedProfileV {
                            checkins: entry.checkins.update(
                                checkin_index,
                                AppCheckinV {
                                    app: app@,
                                    pending: entry.checkins[checkin_index].pending.push(call_id),
                                },
                            ),
                            ..entry
                        },
                    ));
                    assert(self.channels_view() =~= old(self).channels_view());
                    assert forall|i: int|
                        0 <= i < self.hosted_view().len() implies self.entry_wf(
                        #[trigger] self.hosted_view()[i],
                    ) by {
                        assert(old(self).entry_wf(old(self).hosted_view()[i]));
                    }
                    assert forall|i: int|
                        0 <= i < self.calls_view().len() implies self.call_wf(
                        #[trigger] self.calls_view()[i],
                    ) by {
                        if i < old(self).calls_view().len() {
                            assert(old(self).call_wf(old(self).calls_view()[i]));
                        } else {
                            assert(self.calls_view()[i] == new_call);
                            assert(self.channels@.len() == old(self).channels@.len());
                            assert(request_v.to_caller matches Some(h) ==> (h as int) < old(
                                self,
                            ).channels_view().len());
                            assert(request_v.to_caller matches Some(h) ==> (h as int)
                                < self.channels@.len());
                            assert(self.call_wf(new_call));
                        }
                    }
                    assert(old(self).call_refusal(caller@, app@, request_v) is None);
                }
                return Ok(Some(call_id));
            }
            j += 1;
        }
        proof {
            assert(!Self::has_checkin(self.hosted_view()[index as int], app@));
            assert(!self.callee_ready(callee_v, app@));
        }
        Ok(None)
    }

    /// The callee's answer to a routed call: `None` while it is still
    /// ringing; once answered, the send end the callee offered toward
    /// itself, or `None` where it wants no messages. Fails with
    /// [`ErrorKind::LookupFailed`] for an unknown call id.
    pub fn call_response(&self, call_id: u64) -> (r: Result<Option<Option<AppMsgSink>>, ErrorKind>)
        requires
            self.wf(),
        ensures
            r is Ok <==> (call_id as int) < self.calls_view().len(),
            r matches Ok(state) ==> state == self.calls_view()[call_id as int].answered,
            r matches Err(e) ==> e == ErrorKind::LookupFailed,
    {
        if call_id < self.calls.len() as u64 {
            Ok(self.calls[call_id as usize].answered)
        } else {
            Err(ErrorKind::LookupFailed)
        }
    }

    /// A fresh application message channel with the protocol's bounded
    /// capacity; its handle serves as both its send and its receive end.
    pub fn open_channel(&mut self) -> (r: u64)
        requires
            old(self).wf(),
        ensures
            final(self).wf(),
            r == old(self).channels_view().len() as u64,
            final(self).channels_view() == old(self).channels_view().push(
                ChannelModel {
                    queue: Seq::<AppMessageFrame>::empty(),
                    capacity: CHANNEL_CAPACITY as nat,
                    sender_alive: true,
                    receiver_alive: true,
                },
            ),
            final(self).hosted_view() == old(self).hosted_view(),
            final(self).calls_view() == old(self).calls_view(),
            final(self).next_session_id == old(self).next_session_id,
            final(self).signer == old(self).signer,
            final(self).validator == old(self).validator,
    {
        let handle = self.channels.len() as u64;
        self.channels.push(BoundedChannel::new(CHANNEL_CAPACITY));
        proof {
            assert(self.channels_view() =~~= old(self).channels_view().push(
                ChannelModel {
                    queue: Seq::<AppMessageFrame>::empty(),
                    capacity: CHANNEL_CAPACITY as nat,
                    sender_alive: true,
                    receiver_alive: true,
                },
            ));
            assert(self.hosted_view() =~= old(self).hosted_view());
            assert(self.calls_view() =~= old(self).calls_view());
            assert forall|i: int|
                0 <= i < self.hosted_view().len() implies self.entry_wf(
                #[trigger] self.hosted_view()[i],
            ) by {
                assert(old(self).entry_wf(old(self).hosted_view()[i]));
            }
            assert forall|i: int|
                0 <= i < self.calls_view().len() implies self.call_wf(
                #[trigger] self.calls_view()[i],
            ) by {
                assert(old(self).call_wf(old(self).calls_view()[i]));
            }
        }
        handle
    }

    /// One send attempt on a channel, as [`crate::channel::spec_send`]
    /// describes it; fails with [`ErrorKind::LookupFailed`] for an unknown
    /// handle.
    pub fn channel_send(&mut self, handle: u64, frame: AppMessageFrame) -> (r: Result<
        SendOutcome,
        ErrorKind,
    >)
        requires
            old(self).wf(),
        ensures
            final(self).wf(),
            r is Ok <==> (handle as int) < old(self).channels_view().len(),
            r matches Err(e) ==> e == ErrorKind::LookupFailed && *final(self) == *old(self),
            r matches Ok(outcome) ==> ({
                let step = crate::channel::spec_send(
                    old(self).channels_view()[handle as int],
                    frame,
                );
                &&& outcome == step.1
                &&& final(self).channels_view() == old(self).channels_view().update(
                    handle as int,
                    step.0,
                )
                &&& final(self).hosted_view() == old(self).hosted_view()
                &&& final(self).calls_view() == old(self).calls_view()
                &&& final(self).next_session_id == old(self).next_session_id
                &&& final(self).signer == old(self).signer
                &&& final(self).validator == old(self).validator
            }),
    {
        if !(handle < self.channels.len() as u64) {
            return Err(ErrorKind::LookupFailed);
        }
        let outcome = self.channels[handle as usize].send(frame);
        proof {
            self.lemma_channel_step(*old(self), handle as int);
        }
        Ok(outcome)
    }

    /// One receive attempt on a channel, as [`crate::channel::spec_recv`]
    /// describes it; fails with [`ErrorKind::LookupFailed`] for an unknown
    /// handle.
    pub fn channel_recv(&mut self, handle: u64) -> (r: Result<
        RecvOutcome<AppMessageFrame>,
        ErrorKind,
    >)
        requires
            old(self).wf(),
        ensures
            final(self).wf(),
            r is Ok <==> (handle as int) < old(self).channels_view().len(),
            r matches Err(e) ==> e == ErrorKind::LookupFailed && *final(self) == *old(self),
            r matches Ok(outcome) ==> ({
                let step = crate::channel::spec_recv(old(self).channels_view()[handle as int]);
                &&& (outcome matches RecvOutcome::Item(item) ==> step.1 == RecvOutcome::Item(item))
                &&& (outcome is Empty <==> step.1 is Empty)
                &&& (outcome is Closed <==> step.1 is Closed)
                &&& final(self).channels_view() == old(self).channels_view().update(
                    handle as int,
                    step.0,
                )
                &&& final(self).hosted_view() == old(self).hosted_view()
                &&& final(self).calls_view() == old(self).calls_view()
                &&& final(self).next_session_id == old(self).next_session_id
                &&& final(self).signer == old(self).signer
                &&& final(self).validator == old(self).validator
            }),
    {
        if !(handle < self.channels.len() as u64) {
            return Err(ErrorKind::LookupFailed);
        }
        let outcome = self.channels[handle as usize].recv();
        proof {
            self.lemma_channel_step(*old(self), handle as int);
        }
        Ok(outcome)
    }

    /// Closes the producer end of a channel: the consumer can still drain
    /// buffered frames, then the stream ends. Fails with
    /// [`ErrorKind::LookupFailed`] for an unknown handle.
    pub fn channel_close_sender(&mut self, handle: u64) -> (r: Result<(), ErrorKind>)
        requires
            old(self).wf(),
        ensures
            final(self).wf(),
            r is Ok <==> (handle as int) < old(self).channels_view().len(),
            r matches Err(e) ==> e == ErrorKind::LookupFailed && *final(self) == *old(self),
            r is Ok ==> ({
                &&& final(self).channels_view() == old(self).channels_view().update(
                    handle as int,
                    ChannelModel {
                        sender_alive: false,
                        ..old(self).channels_view()[handle as int]
                    },
                )
                &&& final(self).hosted_view() == old(self).hosted_view()
                &&& final(self).calls_view() == old(self).calls_view()
                &&& final(self).next_session_id == old(self).next_session_id
                &&& final(self).signer == old(self).signer
                &&& final(self).validator == old(self).validator
            }),
    {
        if !(handle < self.channels.len() as u64) {
            return Err(ErrorKind::LookupFailed);
        }
        self.channels[handle as usize].close_sender();
        proof {
            self.lemma_channel_step(*old(self), handle as int);
        }
        Ok(())
    }

    /// Closes the consumer end of a channel: further sends fail
    /// immediately, while buffered frames stay retrievable. Fails with
    /// [`ErrorKind::LookupFailed`] for an unknown handle.
    pub fn channel_close_receiver(&mut self, handle: u64) -> (r: Result<(), ErrorKind>)
        requires
            old(self).wf(),
        ensures
            final(self).wf(),
            r is Ok <==> (handle as int) < old(self).channels_view().len(),
            r matches Err(e) ==> e == ErrorKind::LookupFailed && *final(self) == *old(self),
            r is Ok ==> ({
                &&& final(self).channels_view() == old(self).channels_view().update(
                    handle as int,
                    ChannelModel {
                        receiver_alive: false,
                        ..old(self).channels_view()[handle as int]
                    },
                )
                &&& final(self).hosted_view() == old(self).hosted_view()
                &&& final(self).calls_view() == old(self).calls_view()
                &&& final(self).next_session_id == old(self).next_session_id
                &&& final(self).signer == old(self).signer
                &&& final(self).validator == old(self).validator
            }),
    {
        if !(handle < self.channels.len() as u64) {
            return Err(ErrorKind::LookupFailed);
        }
        self.channels[handle as usize].close_receiver();
        proof {
            self.lemma_channel_step(*old(self), handle as int);
        }
        Ok(())
    }

    /// After a step that touched only the channel at `handle`, the other
    /// views are unchanged and well-formedness carries over.
    proof fn lemma_channel_step(&self, pre: Self, handle: int)
        requires
            pre.wf(),
            0 <= handle < pre.channels@.len(),
            self.hosted == pre.hosted,
            self.calls == pre.calls,
            self.next_session_id == pre.next_session_id,
            self.signer == pre.signer,
            self.validator == pre.validator,
            self.channels@.len() == pre.channels@.len(),
            forall|i: int|
                0 <= i < self.channels@.len() && i != handle ==> #[trigger] self.channels@[i]
                    == pre.channels@[i],
            self.channels@[handle].wf(),
        ensures
            self.wf(),
            self.hosted_view() == pre.hosted_view(),
            self.calls_view() == pre.calls_view(),
            self.channels_view() == pre.channels_view().update(handle, self.channels@[handle]@),
    {
        assert(self.hosted_view() =~= pre.hosted_view());
        assert(self.calls_view() =~= pre.calls_view());
        assert(self.channels_view() =~= pre.channels_view().update(
            handle,
            self.channels@[handle]@,
        ));
        assert forall|i: int|
            0 <= i < self.hosted_view().len() implies self.entry_wf(
            #[trigger] self.hosted_view()[i],
        ) by {
            assert(pre.entry_wf(pre.hosted_view()[i]));
        }
        assert forall|i: int|
            0 <= i < self.calls_view().len() implies self.call_wf(#[trigger] self.calls_view()[i]) by {
            assert(pre.call_wf(pre.calls_view()[i]));
        }
    }

    /// The index of the hosted entry holding `id`, if any.
    fn find_hosted(&self, id: &ProfileId) -> (r: Option<usize>)
        requires
            self.wf(),
        ensures
            r is Some <==> self.is_hosted(id@),
            r matches Some(i) ==> (i as int) == self.hosted_index_of(id@),
    {
        let mut i: usize = 0;
        while i < self.hosted.len()
            invariant
                self.wf(),
                i <= self.hosted.len(),
                forall|j: int|
                    0 <= j < i ==> self.hosted_view()[j].own_profile.profile.id != id@,
            decreases self.hosted.len() - i,
        {
            if self.hosted[i].own_profile.profile.id == *id {
                proof {
                    self.lemma_hosted_index_is(id@, i as int);
                }
                return Some(i);
            }
            i += 1;
        }
        None
    }
}

} // verus!
