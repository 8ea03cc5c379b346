//! Opaque identity value types: profile ids, keys, signatures, application
//! ids and application message frames.
//!
//! A [`ProfileId`] is a one-way hash of the profile's [`PublicKey`] and is
//! never reversible. All of these values are created once and never mutated.

use vstd::prelude::*;

use crate::bytesutil::clone_bytes;
use crate::error::ErrorKind;

verus! {

/// A profile identifier: the multihash of the profile's public key.
#[derive(Debug)]
pub struct ProfileId(pub Vec<u8>);

/// A public key used for validating the identity of a profile.
#[derive(Debug)]
pub struct PublicKey(pub Vec<u8>);

/// A private key; held only by signer implementations, never by protocol
/// logic.
#[derive(Debug)]
pub struct PrivateKey(pub Vec<u8>);

/// An opaque secret seed, the raw material a [`PrivateKey`] is derived from.
#[derive(Debug)]
pub struct SecretKey(pub Vec<u8>);

/// A detached signature over a byte string.
#[derive(Debug)]
pub struct Signature(pub Vec<u8>);

/// The unique identifier of an application, such as `iop-chat`.
#[derive(Debug)]
pub struct ApplicationId(pub String);

/// An opaque application-routed message payload.
#[derive(Debug)]
pub struct AppMessageFrame(pub Vec<u8>);

impl View for ProfileId {
    type V = Seq<u8>;

    open spec fn view(&self) -> Seq<u8> {
        self.0@
    }
}

impl DeepView for ProfileId {
    type V = Seq<u8>;

    open spec fn deep_view(&self) -> Seq<u8> {
        self@
    }
}

impl Clone for ProfileId {
    fn clone(&self) -> (res: Self)
        ensures
            res@ == self@,
    {
        ProfileId(clone_bytes(&self.0))
    }
}

impl PartialEq for ProfileId {
    fn eq(&self, other: &Self) -> (r: bool) {
        crate::bytesutil::bytes_eq(self.0.as_slice(), other.0.as_slice())
    }
}

impl vstd::std_specs::cmp::PartialEqSpecImpl for ProfileId {
    open spec fn obeys_eq_spec() -> bool {
        true
    }

    open spec fn eq_spec(&self, other: &Self) -> bool {
        self@ == other@
    }
}

impl View for PublicKey {
    type V = Seq<u8>;

    open spec fn view(&self) -> Seq<u8> {
        self.0@
    }
}

impl Clone for PublicKey {
    fn clone(&self) -> (res: Self)
        ensures
            res@ == self@,
    {
        PublicKey(clone_bytes(&self.0))
    }
}

impl PartialEq for PublicKey {
    fn eq(&self, other: &Self) -> (r: bool) {
        crate::bytesutil::bytes_eq(self.0.as_slice(), other.0.as_slice())
    }
}

impl vstd::std_specs::cmp::PartialEqSpecImpl for PublicKey {
    open spec fn obeys_eq_spec() -> bool {
        true
    }

    open spec fn eq_spec(&self, other: &Self) -> bool {
        self@ == other@
    }
}

impl View for PrivateKey {
    type V = Seq<u8>;

    open spec fn view(&self) -> Seq<u8> {
        self.0@
    }
}

impl Clone for PrivateKey {
    fn clone(&self) -> (res: Self)
        ensures
            res@ == self@,
    {
        PrivateKey(clone_bytes(&self.0))
    }
}

impl View for SecretKey {
    type V = Seq<u8>;

    open spec fn view(&self) -> Seq<u8> {
        self.0@
    }
}

impl Clone for SecretKey {
    fn clone(&self) -> (res: Self)
        ensures
            res@ == self@,
    {
        SecretKey(clone_bytes(&self.0))
    }
}

impl View for Signature {
    type V = Seq<u8>;

    open spec fn view(&self) -> Seq<u8> {
        self.0@
    }
}

impl Clone for Signature {
    fn clone(&self) -> (res: Self)
        ensures
            res@ == self@,
    {
        Signature(clone_bytes(&self.0))
    }
}

impl PartialEq for Signature {
    fn eq(&self, other: &Self) -> (r: bool) {
        crate::bytesutil::bytes_eq(self.0.as_slice(), other.0.as_slice())
    }
}

impl vstd::std_specs::cmp::PartialEqSpecImpl for Signature {
    open spec fn obeys_eq_spec() -> bool {
        true
    }

    open spec fn eq_spec(&self, other: &Self) -> bool {
        self@ == other@
    }
}

impl View for ApplicationId {
    type V = Seq<char>;

    open spec fn view(&self) -> Seq<char> {
        self.0@
    }
}

impl Clone for ApplicationId {
    fn clone(&self) -> (res: Self)
        ensures
            res@ == self@,
    {
        ApplicationId(self.0.clone())
    }
}

impl PartialEq for ApplicationId {
    fn eq(&self, other: &Self) -> (r: bool) {
        self.0 == other.0
    }
}

impl vstd::std_specs::cmp::PartialEqSpecImpl for ApplicationId {
    open spec fn obeys_eq_spec() -> bool {
        true
    }

    open spec fn eq_spec(&self, other: &Self) -> bool {
        self@ == other@
    }
}

impl View for AppMessageFrame {
    type V = Seq<u8>;

    open spec fn view(&self) -> Seq<u8> {
        self.0@
    }
}

impl Clone for AppMessageFrame {
    fn clone(&self) -> (res: Self)
        ensures
            res@ == self@,
    {
        AppMessageFrame(clone_bytes(&self.0))
    }
}

impl PartialEq for AppMessageFrame {
    fn eq(&self, other: &Self) -> (r: bool) {
        crate::bytesutil::bytes_eq(self.0.as_slice(), other.0.as_slice())
    }
}

impl vstd::std_specs::cmp::PartialEqSpecImpl for AppMessageFrame {
    open spec fn obeys_eq_spec() -> bool {
        true
    }

    open spec fn eq_spec(&self, other: &Self) -> bool {
        self@ == other@
    }
}

/// The text form that the URL-safe base-64 multibase encoding gives to a byte
/// string.
pub uninterp spec fn multibase_b64url(bytes: Seq<u8>) -> Seq<char>;

/// The byte string a multibase text decodes to, or `None` where the text is
/// not a valid multibase encoding.
pub uninterp spec fn multibase_decoded(text: Seq<char>) -> Option<Seq<u8>>;

/// Relies on `multibase::encode` with the URL-safe base-64 alphabet: the
/// result is a function of the input bytes alone, and `multibase::decode`
/// inverts it exactly, byte for byte.
#[verifier::external_body]
fn multibase_encode_b64url(bytes: &Vec<u8>) -> (r: String)
    ensures
        r@ == multibase_b64url(bytes@),
        multibase_decoded(r@) == Some(bytes@),
{
    multibase::encode(multibase::Base::Base64Url, bytes)
}

/// Relies on `multibase::decode`: the result is a function of the input text
/// alone, and decoding fails exactly on texts that are not a valid multibase
/// encoding.
#[verifier::external_body]
fn multibase_decode(text: &str) -> (r: Option<Vec<u8>>)
    ensures
        r is Some <==> multibase_decoded(text@) is Some,
        r matches Some(bytes) ==> Some(bytes@) == multibase_decoded(text@),
{
    multibase::decode(text).ok().map(|decoded| decoded.1)
}

impl ProfileId {
    /// The canonical text form of this id: its multibase encoding, which
    /// [`ProfileId::from_text`] decodes back to this very id.
    pub fn to_text(&self) -> (r: String)
        ensures
            r@ == multibase_b64url(self@),
            multibase_decoded(r@) == Some(self@),
    {
        multibase_encode_b64url(&self.0)
    }

    /// Parses an id back from its multibase text form; any multibase
    /// encoding is accepted, not only the one [`ProfileId::to_text`] emits.
    pub fn from_text(text: &str) -> (r: Result<ProfileId, ErrorKind>)
        ensures
            r is Ok <==> multibase_decoded(text@) is Some,
            r matches Ok(id) ==> Some(id@) == multibase_decoded(text@),
            r matches Err(e) ==> e == ErrorKind::Unknown,
    {
        match multibase_decode(text) {
            Some(bytes) => Ok(ProfileId(bytes)),
            None => Err(ErrorKind::Unknown),
        }
    }
}

} // verus!
