//! Identity model: profile identifiers, key material, signatures, profiles
//! with their single facet, and the half and full relation proofs.
use vstd::prelude::*;
use vstd::utf8::encode_utf8;
use crate::bytes::{append_bytes, append_frame, bytes_eq, copy_bytes, frame, lemma_cancel_suffix, lemma_frame_split};

verus! {

/// Error kinds of the home protocol.
#[derive(Debug, Clone, Copy, PartialEq, Eq, Structural)]
pub enum HomeError {
    NotFound,
    ResolutionFailed,
    ConnectionFailed,
    LoginFailed,
    RegistrationFailed,
    PairingFailed,
    CallRefused,
    InvalidProof,
    Unimplemented,
}

/// Stable, content-derived identifier of a profile.
#[derive(Debug, Clone, PartialEq, Eq, Hash)]
pub struct ProfileId(pub Vec<u8>);

/// Public half of a key pair.
#[derive(Debug, Clone, PartialEq, Eq, Hash)]
pub struct PublicKey(pub Vec<u8>);

/// Private half of a key pair; only a signer holds it.
#[derive(Debug, Clone, PartialEq, Eq, Hash)]
pub struct PrivateKey(pub Vec<u8>);

/// Proof of authorship over a byte payload.
#[derive(Debug, Clone, PartialEq, Eq, Hash)]
pub struct Signature(pub Vec<u8>);

/// Identifier of an application that exchanges calls.
#[derive(Debug, Clone, PartialEq, Eq, Hash)]
pub struct ApplicationId(pub String);

/// One message of an application call.
#[derive(Debug, Clone, PartialEq, Eq, Hash)]
pub struct AppMessageFrame(pub Vec<u8>);

impl View for ProfileId {
    type V = Seq<u8>;

    open spec fn view(&self) -> Seq<u8> {
        self.0@
    }
}

impl View for PublicKey {
    type V = Seq<u8>;

    open spec fn view(&self) -> Seq<u8> {
        self.0@
    }
}

impl View for PrivateKey {
    type V = Seq<u8>;

    open spec fn view(&self) -> Seq<u8> {
        self.0@
    }
}

impl View for Signature {
    type V = Seq<u8>;

    open spec fn view(&self) -> Seq<u8> {
        self.0@
    }
}

impl View for ApplicationId {
    type V = Seq<char>;

    open spec fn view(&self) -> Seq<char> {
        self.0@
    }
}

impl View for AppMessageFrame {
    type V = Seq<u8>;

    open spec fn view(&self) -> Seq<u8> {
        self.0@
    }
}

impl ProfileId {
    pub fn copy(&self) -> (r: Self)
        ensures
            r@ == self@,
    {
        ProfileId(copy_bytes(self.0.as_slice()))
    }

    pub fn same_as(&self, other: &ProfileId) -> (r: bool)
        ensures
            r == (self@ == other@),
    {
        bytes_eq(self.0.as_slice(), other.0.as_slice())
    }
}

impl PublicKey {
    pub fn copy(&self) -> (r: Self)
        ensures
            r@ == self@,
    {
        PublicKey(copy_bytes(self.0.as_slice()))
    }
}

impl Signature {
    pub fn copy(&self) -> (r: Self)
        ensures
            r@ == self@,
    {
        Signature(copy_bytes(self.0.as_slice()))
    }
}

impl ApplicationId {
    pub fn copy(&self) -> (r: Self)
        ensures
            r@ == self@,
    {
        ApplicationId(self.0.clone())
    }
}

impl AppMessageFrame {
    pub fn copy(&self) -> (r: Self)
        ensures
            r@ == self@,
    {
        AppMessageFrame(copy_bytes(self.0.as_slice()))
    }
}

/// Copies a string.
pub fn copy_string(s: &String) -> (r: String)
    ensures
        r@ == s@,
{
    s.clone()
}

// ---------------------------------------------------------------------------
// Signatures

/// The bytes that a signer signs to offer or accept a relation: the relation
/// type, the signer's id and the peer's id, each preceded by its length.
pub open spec fn signable_part(relation_type: Seq<char>, signer: Seq<u8>, peer: Seq<u8>) -> Seq<u8> {
    frame(encode_utf8(relation_type)) + (frame(signer) + frame(peer))
}

/// The signature that the key `key` gives over `payload`: the payload
/// followed by the key.
pub open spec fn signature_of(payload: Seq<u8>, key: Seq<u8>) -> Seq<u8> {
    payload + key
}

/// Whether `signature` verifies under the public key `key` over `payload`.
pub open spec fn signature_verifies(payload: Seq<u8>, signature: Seq<u8>, key: Seq<u8>) -> bool {
    signature == signature_of(payload, key)
}

/// A byte length that a vector can hold.
pub open spec fn fits(s: Seq<u8>) -> bool {
    s.len() <= usize::MAX
}

pub fn signable_bytes(relation_type: &String, signer: &ProfileId, peer: &ProfileId) -> (r: Vec<u8>)
    ensures
        r@ == signable_part(relation_type@, signer@, peer@),
{
    let mut out: Vec<u8> = Vec::new();
    append_frame(&mut out, relation_type.as_str().as_bytes());
    append_frame(&mut out, signer.0.as_slice());
    append_frame(&mut out, peer.0.as_slice());
    assert(out@ =~= signable_part(relation_type@, signer@, peer@));
    out
}

/// Checks a signature against a public key and a payload.
pub fn verify_signature(payload: &[u8], signature: &Signature, key: &PublicKey) -> (r: bool)
    ensures
        r == signature_verifies(payload@, signature@, key@),
{
    let mut expected: Vec<u8> = copy_bytes(payload);
    append_bytes(&mut expected, key.0.as_slice());
    bytes_eq(signature.0.as_slice(), expected.as_slice())
}

/// Distinct relation types, signers or peers give distinct signable parts.
pub proof fn lemma_signable_part_injective(
    t1: Seq<char>,
    s1: Seq<u8>,
    peer1: Seq<u8>,
    t2: Seq<char>,
    s2: Seq<u8>,
    peer2: Seq<u8>,
)
    requires
        signable_part(t1, s1, peer1) == signable_part(t2, s2, peer2),
        encode_utf8(t1).len() <= u64::MAX,
        encode_utf8(t2).len() <= u64::MAX,
        s1.len() <= u64::MAX,
        s2.len() <= u64::MAX,
        peer1.len() <= u64::MAX,
        peer2.len() <= u64::MAX,
    ensures
        t1 == t2,
        s1 == s2,
        peer1 == peer2,
{
    lemma_frame_split(encode_utf8(t1), frame(s1) + frame(peer1), encode_utf8(t2), frame(s2) + frame(peer2));
    lemma_frame_split(s1, frame(peer1), s2, frame(peer2));
    assert(frame(peer1) + Seq::<u8>::empty() =~= frame(peer1));
    assert(frame(peer2) + Seq::<u8>::empty() =~= frame(peer2));
    lemma_frame_split(peer1, Seq::<u8>::empty(), peer2, Seq::<u8>::empty());
    vstd::utf8::encode_utf8_decode_utf8(t1);
    vstd::utf8::encode_utf8_decode_utf8(t2);
}

// ---------------------------------------------------------------------------
// Relation proofs

/// Relation type of the proof that a profile is hosted on a home.
pub open spec fn hosted_on_home_type() -> Seq<char> {
    "hosted-on-home"@
}

/// Relation type of the proof that two profiles may call each other.
pub open spec fn enable_calls_type() -> Seq<char> {
    "enable-calls-between"@
}

pub fn relation_type_hosted_on_home() -> (r: String)
    ensures
        r@ == hosted_on_home_type(),
{
    "hosted-on-home".to_owned()
}

pub fn relation_type_enable_calls_between() -> (r: String)
    ensures
        r@ == enable_calls_type(),
{
    "enable-calls-between".to_owned()
}

pub struct RelationHalfProofView {
    pub relation_type: Seq<char>,
    pub signer_id: Seq<u8>,
    pub peer_id: Seq<u8>,
    pub signature: Seq<u8>,
}

pub struct RelationProofView {
    pub relation_type: Seq<char>,
    pub a_id: Seq<u8>,
    pub a_signature: Seq<u8>,
    pub b_id: Seq<u8>,
    pub b_signature: Seq<u8>,
}

/// Unilateral offer of `signer_id` to form a relation with `peer_id`.
#[derive(Debug, Clone, PartialEq, Eq)]
pub struct RelationHalfProof {
    pub relation_type: String,
    pub signer_id: ProfileId,
    pub peer_id: ProfileId,
    pub signature: Signature,
}

/// Bilateral proof of a relation: each side signed the relation type, its
/// own id and the other side's id.
#[derive(Debug, Clone, PartialEq, Eq)]
pub struct RelationProof {
    pub relation_type: String,
    pub a_id: ProfileId,
    pub a_signature: Signature,
    pub b_id: ProfileId,
    pub b_signature: Signature,
}

impl View for RelationHalfProof {
    type V = RelationHalfProofView;

    open spec fn view(&self) -> RelationHalfProofView {
        RelationHalfProofView {
            relation_type: self.relation_type@,
            signer_id: self.signer_id@,
            peer_id: self.peer_id@,
            signature: self.signature@,
        }
    }
}

impl View for RelationProof {
    type V = RelationProofView;

    open spec fn view(&self) -> RelationProofView {
        RelationProofView {
            relation_type: self.relation_type@,
            a_id: self.a_id@,
            a_signature: self.a_signature@,
            b_id: self.b_id@,
            b_signature: self.b_signature@,
        }
    }
}

/// The half proof carries the signer's signature over the signable part.
pub open spec fn half_proof_valid(h: RelationHalfProofView, signer_key: Seq<u8>) -> bool {
    signature_verifies(signable_part(h.relation_type, h.signer_id, h.peer_id), h.signature, signer_key)
}

/// Both signatures of the proof verify, the one of side a under `a_key` and
/// the one of side b under `b_key`.
pub open spec fn proof_valid(p: RelationProofView, a_key: Seq<u8>, b_key: Seq<u8>) -> bool {
    &&& signature_verifies(signable_part(p.relation_type, p.a_id, p.b_id), p.a_signature, a_key)
    &&& signature_verifies(signable_part(p.relation_type, p.b_id, p.a_id), p.b_signature, b_key)
}

/// The same proof with its two sides exchanged.
pub open spec fn swapped(p: RelationProofView) -> RelationProofView {
    RelationProofView {
        relation_type: p.relation_type,
        a_id: p.b_id,
        a_signature: p.b_signature,
        b_id: p.a_id,
        b_signature: p.a_signature,
    }
}

/// Validity as seen by `my_id`, holding `my_key`, with a peer holding `peer_key`.
pub open spec fn proof_valid_for(p: RelationProofView, my_id: Seq<u8>, my_key: Seq<u8>, peer_key: Seq<u8>) -> bool {
    if my_id == p.a_id {
        proof_valid(p, my_key, peer_key)
    } else if my_id == p.b_id {
        proof_valid(p, peer_key, my_key)
    } else {
        false
    }
}

/// The other side of the proof, seen from `my_id`.
pub open spec fn peer_of(p: RelationProofView, my_id: Seq<u8>) -> Option<Seq<u8>> {
    if my_id == p.a_id {
        Some(p.b_id)
    } else if my_id == p.b_id {
        Some(p.a_id)
    } else {
        None
    }
}

/// Every field of the proof has a length that a vector can hold.
pub open spec fn proof_fits(p: RelationProofView) -> bool {
    &&& encode_utf8(p.relation_type).len() <= usize::MAX
    &&& fits(p.a_id)
    &&& fits(p.b_id)
}

/// `q` is `p` with exactly one of its fields changed.
pub open spec fn one_field_changed(p: RelationProofView, q: RelationProofView) -> bool {
    ||| (q.relation_type != p.relation_type && q == RelationProofView { relation_type: q.relation_type, ..p })
    ||| (q.a_id != p.a_id && q == RelationProofView { a_id: q.a_id, ..p })
    ||| (q.a_signature != p.a_signature && q == RelationProofView { a_signature: q.a_signature, ..p })
    ||| (q.b_id != p.b_id && q == RelationProofView { b_id: q.b_id, ..p })
    ||| (q.b_signature != p.b_signature && q == RelationProofView { b_signature: q.b_signature, ..p })
}

impl RelationHalfProof {
    pub fn copy(&self) -> (r: Self)
        ensures
            r@ == self@,
    {
        RelationHalfProof {
            relation_type: copy_string(&self.relation_type),
            signer_id: self.signer_id.copy(),
            peer_id: self.peer_id.copy(),
            signature: self.signature.copy(),
        }
    }

    /// Checks the signature under the signer's public key.
    pub fn verify(&self, signer_key: &PublicKey) -> (r: bool)
        ensures
            r == half_proof_valid(self@, signer_key@),
    {
        let payload = signable_bytes(&self.relation_type, &self.signer_id, &self.peer_id);
        verify_signature(payload.as_slice(), &self.signature, signer_key)
    }
}

impl RelationProof {
    pub fn new(
        relation_type: &str,
        a_id: &ProfileId,
        a_signature: &Signature,
        b_id: &ProfileId,
        b_signature: &Signature,
    ) -> (r: Self)
        ensures
            r@ == (RelationProofView {
                relation_type: relation_type@,
                a_id: a_id@,
                a_signature: a_signature@,
                b_id: b_id@,
                b_signature: b_signature@,
            }),
    {
        RelationProof {
            relation_type: relation_type.to_owned(),
            a_id: a_id.copy(),
            a_signature: a_signature.copy(),
            b_id: b_id.copy(),
            b_signature: b_signature.copy(),
        }
    }

    pub fn copy(&self) -> (r: Self)
        ensures
            r@ == self@,
    {
        RelationProof {
            relation_type: copy_string(&self.relation_type),
            a_id: self.a_id.copy(),
            a_signature: self.a_signature.copy(),
            b_id: self.b_id.copy(),
            b_signature: self.b_signature.copy(),
        }
    }

    /// The proof with its two sides exchanged.
    pub fn swap(&self) -> (r: Self)
        ensures
            r@ == swapped(self@),
    {
        RelationProof {
            relation_type: copy_string(&self.relation_type),
            a_id: self.b_id.copy(),
            a_signature: self.b_signature.copy(),
            b_id: self.a_id.copy(),
            b_signature: self.a_signature.copy(),
        }
    }

    /// The id on the other side from `my_id`; fails when `my_id` is on neither side.
    pub fn peer_id(&self, my_id: &ProfileId) -> (r: Result<ProfileId, HomeError>)
        ensures
            match r {
                Ok(id) => peer_of(self@, my_id@) == Some(id@),
                Err(e) => peer_of(self@, my_id@) is None && e == HomeError::InvalidProof,
            },
    {
        if my_id.same_as(&self.a_id) {
            Ok(self.b_id.copy())
        } else if my_id.same_as(&self.b_id) {
            Ok(self.a_id.copy())
        } else {
            Err(HomeError::InvalidProof)
        }
    }

    /// Checks both signatures, side a under `a_key` and side b under `b_key`.
    pub fn verify(&self, a_key: &PublicKey, b_key: &PublicKey) -> (r: bool)
        ensures
            r == proof_valid(self@, a_key@, b_key@),
    {
        let pa = signable_bytes(&self.relation_type, &self.a_id, &self.b_id);
        let pb = signable_bytes(&self.relation_type, &self.b_id, &self.a_id);
        verify_signature(pa.as_slice(), &self.a_signature, a_key)
            && verify_signature(pb.as_slice(), &self.b_signature, b_key)
    }

    /// Checks the proof from the side of `my_id`.
    pub fn verify_for(&self, my_id: &ProfileId, my_key: &PublicKey, peer_key: &PublicKey) -> (r: bool)
        ensures
            r == proof_valid_for(self@, my_id@, my_key@, peer_key@),
    {
        if my_id.same_as(&self.a_id) {
            self.verify(my_key, peer_key)
        } else if my_id.same_as(&self.b_id) {
            self.verify(peer_key, my_key)
        } else {
            false
        }
    }
}

/// A valid proof verifies from either of its two distinct sides, and stays
/// valid, with the keys exchanged, when its sides are exchanged.
pub proof fn lemma_proof_symmetry(p: RelationProofView, a_key: Seq<u8>, b_key: Seq<u8>)
    requires
        proof_valid(p, a_key, b_key),
        p.a_id != p.b_id,
    ensures
        proof_valid_for(p, p.a_id, a_key, b_key),
        proof_valid_for(p, p.b_id, b_key, a_key),
        proof_valid(swapped(p), b_key, a_key),
        proof_valid_for(swapped(p), p.a_id, a_key, b_key),
        proof_valid_for(swapped(p), p.b_id, b_key, a_key),
{
}

/// Changing any one field of a valid proof makes it fail verification under
/// the same keys.
pub proof fn lemma_tamper_detection(p: RelationProofView, q: RelationProofView, a_key: Seq<u8>, b_key: Seq<u8>)
    requires
        proof_valid(p, a_key, b_key),
        one_field_changed(p, q),
        proof_fits(p),
        proof_fits(q),
    ensures
        !proof_valid(q, a_key, b_key),
{
    if proof_valid(q, a_key, b_key) {
        let sp = signable_part(p.relation_type, p.a_id, p.b_id);
        let sq = signable_part(q.relation_type, q.a_id, q.b_id);
        if q.a_signature == p.a_signature {
            lemma_cancel_suffix(sp, sq, a_key);
            lemma_signable_part_injective(p.relation_type, p.a_id, p.b_id, q.relation_type, q.a_id, q.b_id);
        }
        if q.b_signature == p.b_signature {
            let tp = signable_part(p.relation_type, p.b_id, p.a_id);
            let tq = signable_part(q.relation_type, q.b_id, q.a_id);
            lemma_cancel_suffix(tp, tq, b_key);
            lemma_signable_part_injective(p.relation_type, p.b_id, p.a_id, q.relation_type, q.b_id, q.a_id);
        }
    }
}

// ---------------------------------------------------------------------------
// Profiles

pub enum FacetView {
    Persona { homes: Seq<RelationProofView>, data: Seq<u8> },
    Home { addrs: Seq<Seq<u8>>, data: Seq<u8> },
}

pub struct ProfileView {
    pub id: Seq<u8>,
    pub public_key: Seq<u8>,
    pub facet: FacetView,
}

pub struct OwnProfileView {
    pub profile: ProfileView,
    pub private_data: Seq<u8>,
}

pub struct RelationView {
    pub profile: ProfileView,
    pub proof: RelationProofView,
}

/// Facet of an end-user identity: the proofs of the homes hosting it.
#[derive(Debug, Clone, PartialEq, Eq)]
pub struct PersonaFacet {
    pub homes: Vec<RelationProof>,
    pub data: Vec<u8>,
}

/// Facet of a hosting node: the encoded addresses it can be reached at.
#[derive(Debug, Clone, PartialEq, Eq)]
pub struct HomeFacet {
    pub addrs: Vec<Vec<u8>>,
    pub data: Vec<u8>,
}

#[derive(Debug, Clone, PartialEq, Eq)]
pub enum ProfileFacet {
    Persona(PersonaFacet),
    Home(HomeFacet),
}

/// Public, shareable identity record.
#[derive(Debug, Clone, PartialEq, Eq)]
pub struct Profile {
    pub id: ProfileId,
    pub public_key: PublicKey,
    pub facet: ProfileFacet,
}

/// A profile together with the private payload only its owner reads.
#[derive(Debug, Clone, PartialEq, Eq)]
pub struct OwnProfile {
    pub profile: Profile,
    pub private_data: Vec<u8>,
}

/// A peer and the proof binding it to the local profile.
#[derive(Debug, Clone, PartialEq, Eq)]
pub struct Relation {
    pub profile: Profile,
    pub proof: RelationProof,
}

pub open spec fn proofs_view(v: Seq<RelationProof>) -> Seq<RelationProofView> {
    v.map_values(|p: RelationProof| p@)
}

pub open spec fn addrs_view(v: Seq<Vec<u8>>) -> Seq<Seq<u8>> {
    v.map_values(|a: Vec<u8>| a@)
}

impl View for ProfileFacet {
    type V = FacetView;

    open spec fn view(&self) -> FacetView {
        match self {
            ProfileFacet::Persona(p) => FacetView::Persona { homes: proofs_view(p.homes@), data: p.data@ },
            ProfileFacet::Home(h) => FacetView::Home { addrs: addrs_view(h.addrs@), data: h.data@ },
        }
    }
}

impl View for Profile {
    type V = ProfileView;

    open spec fn view(&self) -> ProfileView {
        ProfileView { id: self.id@, public_key: self.public_key@, facet: self.facet@ }
    }
}

impl View for OwnProfile {
    type V = OwnProfileView;

    open spec fn view(&self) -> OwnProfileView {
        OwnProfileView { profile: self.profile@, private_data: self.private_data@ }
    }
}

impl View for Relation {
    type V = RelationView;

    open spec fn view(&self) -> RelationView {
        RelationView { profile: self.profile@, proof: self.proof@ }
    }
}

pub fn copy_proofs(v: &Vec<RelationProof>) -> (r: Vec<RelationProof>)
    ensures
        proofs_view(r@) == proofs_view(v@),
{
    let mut out: Vec<RelationProof> = Vec::new();
    let mut i: usize = 0;
    while i < v.len()
        invariant
            0 <= i <= v.len(),
            out@.len() == i,
            forall|j: int| 0 <= j < i ==> out@[j]@ == v@[j]@,
        decreases v.len() - i,
    {
        out.push(v[i].copy());
        i = i + 1;
    }
    assert(proofs_view(out@) =~= proofs_view(v@));
    out
}

pub fn copy_addrs(v: &Vec<Vec<u8>>) -> (r: Vec<Vec<u8>>)
    ensures
        addrs_view(r@) == addrs_view(v@),
{
    let mut out: Vec<Vec<u8>> = Vec::new();
    let mut i: usize = 0;
    while i < v.len()
        invariant
            0 <= i <= v.len(),
            out@.len() == i,
            forall|j: int| 0 <= j < i ==> out@[j]@ == v@[j]@,
        decreases v.len() - i,
    {
        out.push(copy_bytes(v[i].as_slice()));
        i = i + 1;
    }
    assert(addrs_view(out@) =~= addrs_view(v@));
    out
}

impl ProfileFacet {
    pub fn copy(&self) -> (r: Self)
        ensures
            r@ == self@,
    {
        match self {
            ProfileFacet::Persona(p) => ProfileFacet::Persona(
                PersonaFacet { homes: copy_proofs(&p.homes), data: copy_bytes(p.data.as_slice()) },
            ),
            ProfileFacet::Home(h) => ProfileFacet::Home(
                HomeFacet { addrs: copy_addrs(&h.addrs), data: copy_bytes(h.data.as_slice()) },
            ),
        }
    }
}

impl Profile {
    /// A profile with the given id, key and single facet.
    pub fn new(id: &ProfileId, public_key: &PublicKey, facet: &ProfileFacet) -> (r: Profile)
        ensures
            r@ == (ProfileView { id: id@, public_key: public_key@, facet: facet@ }),
    {
        Profile { id: id.copy(), public_key: public_key.copy(), facet: facet.copy() }
    }

    /// A profile from a list of facets; a profile has exactly one facet, so
    /// any other number of them, Persona and Home mixed in particular, is
    /// refused.
    pub fn from_facets(id: &ProfileId, public_key: &PublicKey, facets: &[ProfileFacet]) -> (r: Option<Profile>)
        ensures
            facets@.len() == 1 <==> r is Some,
            r matches Some(p) ==> p@ == (ProfileView { id: id@, public_key: public_key@, facet: facets@[0]@ }),
    {
        if facets.len() == 1 {
            Some(Profile::new(id, public_key, &facets[0]))
        } else {
            None
        }
    }

    /// A home profile reachable at one address.
    pub fn new_home(id: &ProfileId, public_key: &PublicKey, addr: &Vec<u8>) -> (r: Profile)
        ensures
            r@ == (ProfileView {
                id: id@,
                public_key: public_key@,
                facet: FacetView::Home { addrs: seq![addr@], data: Seq::empty() },
            }),
    {
        let mut addrs: Vec<Vec<u8>> = Vec::new();
        addrs.push(copy_bytes(addr.as_slice()));
        let r = Profile {
            id: id.copy(),
            public_key: public_key.copy(),
            facet: ProfileFacet::Home(HomeFacet { addrs, data: Vec::new() }),
        };
        assert(addrs_view(addrs@) =~= seq![addr@]);
        assert(r.facet@ =~= (FacetView::Home { addrs: seq![addr@], data: Seq::empty() }));
        r
    }

    pub fn copy(&self) -> (r: Self)
        ensures
            r@ == self@,
    {
        Profile { id: self.id.copy(), public_key: self.public_key.copy(), facet: self.facet.copy() }
    }
}

impl OwnProfile {
    pub fn new(profile: &Profile, private_data: &[u8]) -> (r: OwnProfile)
        ensures
            r@ == (OwnProfileView { profile: profile@, private_data: private_data@ }),
    {
        OwnProfile { profile: profile.copy(), private_data: copy_bytes(private_data) }
    }

    pub fn copy(&self) -> (r: Self)
        ensures
            r@ == self@,
    {
        OwnProfile { profile: self.profile.copy(), private_data: copy_bytes(self.private_data.as_slice()) }
    }
}

impl Relation {
    pub fn new(profile: &Profile, proof: &RelationProof) -> (r: Relation)
        ensures
            r@ == (RelationView { profile: profile@, proof: proof@ }),
    {
        Relation { profile: profile.copy(), proof: proof.copy() }
    }

    pub fn copy(&self) -> (r: Self)
        ensures
            r@ == self@,
    {
        Relation { profile: self.profile.copy(), proof: self.proof.copy() }
    }
}

} // verus!
