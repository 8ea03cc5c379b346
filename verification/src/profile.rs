//! Profiles, facets and peer contexts.
//!
//! A [`Profile`] is the public record of an identity: its id, its public key
//! and one facet describing its role. The facet variant set is closed;
//! facets of unknown remote kinds round-trip as opaque
//! [`ProfileFacet::Unknown`] values rather than erroring. An [`OwnProfile`]
//! extends a profile with the persona-controlled encrypted private payload
//! stored alongside it.

use vstd::prelude::*;

use crate::bytesutil::clone_bytes;
use crate::crypto::{Signer, Validator};
use crate::error::ErrorKind;
use crate::identity::{ApplicationId, ProfileId, PublicKey};
use crate::relation::{RelationProof, RelationProofV};

verus! {

/// The mathematical value of a [`PersonaFacet`].
#[verifier::ext_equal]
pub struct PersonaFacetV {
    pub homes: Seq<RelationProofV>,
    pub data: Seq<u8>,
}

/// The facet of a persona: the `hosted_on_home` proofs of the homes hosting
/// it, and opaque persona data.
#[derive(Debug)]
pub struct PersonaFacet {
    /// Hosting proofs, one per home; the current protocol keeps a single
    /// home in `homes[0]`.
    pub homes: Vec<RelationProof>,
    pub data: Vec<u8>,
}

/// The mathematical value of a [`HomeFacet`].
#[verifier::ext_equal]
pub struct HomeFacetV {
    pub addrs: Seq<Seq<char>>,
    pub data: Seq<u8>,
}

/// The facet of a home server: its network addresses in multiaddress text
/// form, and opaque home data.
#[derive(Debug)]
pub struct HomeFacet {
    /// Addresses of the same home server, such as one IPv4, one onion and
    /// some IPv6 address/port pairs.
    pub addrs: Vec<String>,
    pub data: Vec<u8>,
}

/// The mathematical value of an [`ApplicationFacet`].
#[verifier::ext_equal]
pub struct ApplicationFacetV {
    pub id: Seq<char>,
    pub data: Seq<u8>,
}

/// The facet of an application, given for each supported application.
#[derive(Debug)]
pub struct ApplicationFacet {
    /// Unique id of the application, such as `iop-chat`.
    pub id: ApplicationId,
    pub data: Vec<u8>,
}

/// The mathematical value of a [`RawFacet`].
#[verifier::ext_equal]
pub struct RawFacetV {
    pub data: Seq<u8>,
}

/// An opaque facet of a kind this implementation does not know; kept as raw
/// bytes for forward compatibility.
#[derive(Debug)]
pub struct RawFacet {
    pub data: Vec<u8>,
}

/// The mathematical value of a [`ProfileFacet`].
#[verifier::ext_equal]
pub enum ProfileFacetV {
    Home(HomeFacetV),
    Persona(PersonaFacetV),
    Application(ApplicationFacetV),
    Unknown(RawFacetV),
}

/// The closed set of roles a profile can describe.
#[derive(Debug)]
pub enum ProfileFacet {
    Home(HomeFacet),
    Persona(PersonaFacet),
    Application(ApplicationFacet),
    Unknown(RawFacet),
}

/// The mathematical value of a [`Profile`].
#[verifier::ext_equal]
pub struct ProfileV {
    pub id: Seq<u8>,
    pub public_key: Seq<u8>,
    pub facet: ProfileFacetV,
}

/// The public record of an identity.
#[derive(Debug)]
pub struct Profile {
    /// A one-way hash of the public key.
    pub id: ProfileId,
    /// The key used for validating the identity of the profile.
    pub public_key: PublicKey,
    pub facet: ProfileFacet,
}

/// The mathematical value of an [`OwnProfile`].
#[verifier::ext_equal]
pub struct OwnProfileV {
    pub profile: ProfileV,
    pub priv_data: Seq<u8>,
}

/// The persona-controlled extension of a profile: the public part plus an
/// encrypted private payload stored on the home but readable only off-home.
#[derive(Debug)]
pub struct OwnProfile {
    pub profile: Profile,
    pub priv_data: Vec<u8>,
}

impl DeepView for RelationProof {
    type V = RelationProofV;

    open spec fn deep_view(&self) -> RelationProofV {
        self@
    }
}

impl View for PersonaFacet {
    type V = PersonaFacetV;

    open spec fn view(&self) -> PersonaFacetV {
        PersonaFacetV { homes: self.homes.deep_view(), data: self.data@ }
    }
}

impl View for HomeFacet {
    type V = HomeFacetV;

    open spec fn view(&self) -> HomeFacetV {
        HomeFacetV { addrs: self.addrs.deep_view(), data: self.data@ }
    }
}

impl View for ApplicationFacet {
    type V = ApplicationFacetV;

    open spec fn view(&self) -> ApplicationFacetV {
        ApplicationFacetV { id: self.id@, data: self.data@ }
    }
}

impl View for RawFacet {
    type V = RawFacetV;

    open spec fn view(&self) -> RawFacetV {
        RawFacetV { data: self.data@ }
    }
}

impl View for ProfileFacet {
    type V = ProfileFacetV;

    open spec fn view(&self) -> ProfileFacetV {
        match self {
            ProfileFacet::Home(facet) => ProfileFacetV::Home(facet@),
            ProfileFacet::Persona(facet) => ProfileFacetV::Persona(facet@),
            ProfileFacet::Application(facet) => ProfileFacetV::Application(facet@),
            ProfileFacet::Unknown(facet) => ProfileFacetV::Unknown(facet@),
        }
    }
}

impl View for Profile {
    type V = ProfileV;

    open spec fn view(&self) -> ProfileV {
        ProfileV { id: self.id@, public_key: self.public_key@, facet: self.facet@ }
    }
}

impl DeepView for Profile {
    type V = ProfileV;

    open spec fn deep_view(&self) -> ProfileV {
        self@
    }
}

impl View for OwnProfile {
    type V = OwnProfileV;

    open spec fn view(&self) -> OwnProfileV {
        OwnProfileV { profile: self.profile@, priv_data: self.priv_data@ }
    }
}

/// A fresh vector holding clones of the given relation proofs, with the same
/// mathematical value.
pub fn clone_proofs(proofs: &Vec<RelationProof>) -> (r: Vec<RelationProof>)
    ensures
        r.deep_view() == proofs.deep_view(),
{
    let mut r: Vec<RelationProof> = Vec::new();
    let mut i: usize = 0;
    while i < proofs.len()
        invariant
            i <= proofs.len(),
            r@.len() == i,
            forall|j: int| 0 <= j < i ==> r@[j]@ == proofs@[j]@,
        decreases proofs.len() - i,
    {
        r.push(proofs[i].clone());
        i += 1;
    }
    proof {
        assert(r.deep_view() =~= proofs.deep_view());
    }
    r
}

/// A fresh vector holding clones of the given strings, with the same
/// mathematical value.
pub fn clone_strings(strings: &Vec<String>) -> (r: Vec<String>)
    ensures
        r.deep_view() == strings.deep_view(),
{
    let mut r: Vec<String> = Vec::new();
    let mut i: usize = 0;
    while i < strings.len()
        invariant
            i <= strings.len(),
            r@.len() == i,
            forall|j: int| 0 <= j < i ==> r@[j]@ == strings@[j]@,
        decreases strings.len() - i,
    {
        r.push(strings[i].clone());
        i += 1;
    }
    proof {
        assert(r.deep_view() =~= strings.deep_view());
    }
    r
}

impl Clone for PersonaFacet {
    fn clone(&self) -> (res: Self)
        ensures
            res@ == self@,
    {
        let res = PersonaFacet { homes: clone_proofs(&self.homes), data: clone_bytes(&self.data) };
        proof {
            assert(res@ =~= self@);
        }
        res
    }
}

impl Clone for HomeFacet {
    fn clone(&self) -> (res: Self)
        ensures
            res@ == self@,
    {
        let res = HomeFacet { addrs: clone_strings(&self.addrs), data: clone_bytes(&self.data) };
        proof {
            assert(res@ =~= self@);
        }
        res
    }
}

impl Clone for ApplicationFacet {
    fn clone(&self) -> (res: Self)
        ensures
            res@ == self@,
    {
        let res = ApplicationFacet { id: self.id.clone(), data: clone_bytes(&self.data) };
        proof {
            assert(res@ =~= self@);
        }
        res
    }
}

impl Clone for RawFacet {
    fn clone(&self) -> (res: Self)
        ensures
            res@ == self@,
    {
        let res = RawFacet { data: clone_bytes(&self.data) };
        proof {
            assert(res@ =~= self@);
        }
        res
    }
}

impl Clone for ProfileFacet {
    fn clone(&self) -> (res: Self)
        ensures
            res@ == self@,
    {
        match self {
            ProfileFacet::Home(facet) => ProfileFacet::Home(facet.clone()),
            ProfileFacet::Persona(facet) => ProfileFacet::Persona(facet.clone()),
            ProfileFacet::Application(facet) => ProfileFacet::Application(facet.clone()),
            ProfileFacet::Unknown(facet) => ProfileFacet::Unknown(facet.clone()),
        }
    }
}

impl Clone for Profile {
    fn clone(&self) -> (res: Self)
        ensures
            res@ == self@,
    {
        let res = Profile {
            id: self.id.clone(),
            public_key: self.public_key.clone(),
            facet: self.facet.clone(),
        };
        proof {
            assert(res@ =~= self@);
        }
        res
    }
}

impl Clone for OwnProfile {
    fn clone(&self) -> (res: Self)
        ensures
            res@ == self@,
    {
        let res = OwnProfile { profile: self.profile.clone(), priv_data: clone_bytes(&self.priv_data) };
        proof {
            assert(res@ =~= self@);
        }
        res
    }
}

impl Profile {
    /// A profile from its parts.
    pub fn new(id: &ProfileId, public_key: &PublicKey, facet: &ProfileFacet) -> (r: Self)
        ensures
            r@ == (ProfileV { id: id@, public_key: public_key@, facet: facet@ }),
    {
        let r = Profile { id: id.clone(), public_key: public_key.clone(), facet: facet.clone() };
        proof {
            assert(r@ =~= (ProfileV { id: id@, public_key: public_key@, facet: facet@ }));
        }
        r
    }

    /// A home server profile listening on a single address.
    pub fn new_home(id: ProfileId, public_key: PublicKey, address: String) -> (r: Self)
        ensures
            r@ == (ProfileV {
                id: id@,
                public_key: public_key@,
                facet: ProfileFacetV::Home(
                    HomeFacetV { addrs: seq![address@], data: Seq::empty() },
                ),
            }),
    {
        let mut addrs: Vec<String> = Vec::new();
        addrs.push(address);
        let facet = HomeFacet { addrs, data: Vec::new() };
        let r = Profile { id, public_key, facet: ProfileFacet::Home(facet) };
        proof {
            assert(r.facet@->Home_0.addrs =~= seq![r.facet->Home_0.addrs@[0]@]);
            assert(r@ =~= (ProfileV {
                id: r.id@,
                public_key: r.public_key@,
                facet: ProfileFacetV::Home(
                    HomeFacetV { addrs: seq![r.facet->Home_0.addrs@[0]@], data: Seq::empty() },
                ),
            }));
        }
        r
    }
}

impl OwnProfile {
    /// An own-profile from the public part and the encrypted private
    /// payload.
    pub fn new(profile: &Profile, private_data: &[u8]) -> (r: Self)
        ensures
            r@ == (OwnProfileV { profile: profile@, priv_data: private_data@ }),
    {
        let mut priv_data: Vec<u8> = Vec::new();
        crate::bytesutil::push_bytes(&mut priv_data, private_data);
        let r = OwnProfile { profile: profile.clone(), priv_data };
        proof {
            assert(r@ =~= (OwnProfileV { profile: profile@, priv_data: private_data@ }));
        }
        r
    }
}

/// The mathematical value of a [`HomeInvitation`].
#[verifier::ext_equal]
pub struct HomeInvitationV {
    pub home_id: Seq<u8>,
    pub voucher: Seq<char>,
    pub signature: Seq<u8>,
}

/// Permission, signed by a home, for a persona to register on it.
#[derive(Debug)]
pub struct HomeInvitation {
    pub home_id: ProfileId,
    /// A unique string identifying the invitation.
    pub voucher: String,
    /// The home's signature over the voucher.
    pub signature: crate::identity::Signature,
}

impl View for HomeInvitation {
    type V = HomeInvitationV;

    open spec fn view(&self) -> HomeInvitationV {
        HomeInvitationV { home_id: self.home_id@, voucher: self.voucher@, signature: self.signature@ }
    }
}

impl HomeInvitation {
    /// An invitation from its parts.
    pub fn new(home_id: &ProfileId, voucher: &str, signature: &crate::identity::Signature) -> (r:
        Self)
        ensures
            r@ == (HomeInvitationV { home_id: home_id@, voucher: voucher@, signature: signature@ }),
    {
        HomeInvitation {
            home_id: home_id.clone(),
            voucher: voucher.to_owned(),
            signature: signature.clone(),
        }
    }
}

/// A connection to another profile (home to persona, or persona to persona):
/// the local signer plus the peer's key and id as learned from its profile.
pub struct PeerContext<S: Signer> {
    pub my_signer: S,
    pub peer_pubkey: PublicKey,
    pub peer_id: ProfileId,
}

impl<S: Signer> PeerContext<S> {
    /// A context from the peer's bare key and id.
    pub fn new(my_signer: S, peer_pubkey: PublicKey, peer_id: ProfileId) -> (r: Self)
        ensures
            r.my_signer == my_signer,
            r.peer_pubkey@ == peer_pubkey@,
            r.peer_id@ == peer_id@,
    {
        PeerContext { my_signer, peer_pubkey, peer_id }
    }

    /// A context taking key and id from the peer's profile.
    pub fn new_from_profile(my_signer: S, peer: &Profile) -> (r: Self)
        ensures
            r.my_signer == my_signer,
            r.peer_pubkey@ == peer.public_key@,
            r.peer_id@ == peer.id@,
    {
        Self::new(my_signer, peer.public_key.clone(), peer.id.clone())
    }

    /// The local signer.
    pub fn my_signer(&self) -> (r: &S)
        ensures
            r == &self.my_signer,
    {
        &self.my_signer
    }

    /// The peer's public key.
    pub fn peer_pubkey(&self) -> (r: &PublicKey)
        ensures
            r@ == self.peer_pubkey@,
    {
        &self.peer_pubkey
    }

    /// The peer's id.
    pub fn peer_id(&self) -> (r: &ProfileId)
        ensures
            r@ == self.peer_id@,
    {
        &self.peer_id
    }

    /// Checks that the peer's id derives from its public key; fails with
    /// [`ErrorKind::ProfileValidationFailed`] otherwise.
    pub fn validate<V: Validator>(&self, validator: &V) -> (r: Result<(), ErrorKind>)
        ensures
            r is Ok <==> validator.id_ok(self.peer_pubkey@, self.peer_id@),
            r matches Err(e) ==> e == ErrorKind::ProfileValidationFailed,
    {
        if validator.validate_profile(&self.peer_pubkey, &self.peer_id) {
            Ok(())
        } else {
            Err(ErrorKind::ProfileValidationFailed)
        }
    }
}

} // verus!
