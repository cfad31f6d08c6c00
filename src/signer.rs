//! The deterministic signer, profile ids derived by hashing, and the
//! constructors of signed half proofs and of sample profiles.
use vstd::prelude::*;
use vstd::utf8::encode_utf8;
use crate::bytes::{append_bytes, copy_bytes};
use crate::codec::{multihash_sha2_256, parse_multiaddr, sha2_256_multihash, multiaddr_bytes};
use crate::identity::{
    copy_string, half_proof_valid, proof_valid, proofs_view, signable_bytes, signable_part, signature_of,
    signature_verifies, FacetView, HomeError, OwnProfile, OwnProfileView, PersonaFacet, PrivateKey, Profile,
    ProfileFacet, ProfileId, ProfileView, PublicKey, Relation, RelationHalfProof, RelationHalfProofView,
    RelationProof, RelationProofView, Signature,
};

verus! {

/// The SHA2-256 multihash of the UTF-8 bytes of `base`.
pub fn generate_hash(base: &str) -> (r: Vec<u8>)
    ensures
        r@ == sha2_256_multihash(encode_utf8(base@)),
        r@.len() == 34,
        r@[0] == 0x12,
        r@[1] == 32,
{
    multihash_sha2_256(base.as_bytes())
}

/// The SHA2-256 multihash of `base`.
pub fn generate_hash_from_vec(base: Vec<u8>) -> (r: Vec<u8>)
    ensures
        r@ == sha2_256_multihash(base@),
        r@.len() == 34,
        r@[0] == 0x12,
        r@[1] == 32,
{
    multihash_sha2_256(base.as_slice())
}

/// Deterministic signer: a signature is the payload followed by the key.
/// Its private key equals its public key, so anyone can check (and forge)
/// its signatures; it stands in for an asymmetric signer where the protocol,
/// not the cryptography, is under test.
#[derive(Debug)]
pub struct Signo {
    prof_id: ProfileId,
    pubkey: PublicKey,
    privkey: PrivateKey,
}

impl Signo {
    #[verifier::type_invariant]
    spec fn keys_match(&self) -> bool {
        self.privkey@ == self.pubkey@
    }

    pub closed spec fn spec_profile_id(&self) -> Seq<u8> {
        self.prof_id@
    }

    pub closed spec fn spec_public_key(&self) -> Seq<u8> {
        self.pubkey@
    }

    /// A signer whose public key is the hash of `whatever` and whose profile
    /// id is the hash of that key.
    pub fn new(whatever: &str) -> (r: Signo)
        ensures
            r.spec_public_key() == sha2_256_multihash(encode_utf8(whatever@)),
            r.spec_profile_id() == sha2_256_multihash(sha2_256_multihash(encode_utf8(whatever@))),
    {
        let key = generate_hash(whatever);
        Signo {
            prof_id: ProfileId(generate_hash_from_vec(generate_hash(whatever))),
            pubkey: PublicKey(copy_bytes(key.as_slice())),
            privkey: PrivateKey(key),
        }
    }

    /// A signer for the given id and key pair; `None` when the private key
    /// does not belong to the public key.
    pub fn from_keys(prof_id: &ProfileId, pubkey: &PublicKey, privkey: &PrivateKey) -> (r: Option<Signo>)
        ensures
            r is Some <==> privkey@ == pubkey@,
            r matches Some(s) ==> s.spec_profile_id() == prof_id@ && s.spec_public_key() == pubkey@,
    {
        if crate::bytes::bytes_eq(privkey.0.as_slice(), pubkey.0.as_slice()) {
            Some(
                Signo {
                    prof_id: prof_id.copy(),
                    pubkey: pubkey.copy(),
                    privkey: PrivateKey(copy_bytes(privkey.0.as_slice())),
                },
            )
        } else {
            None
        }
    }

    pub fn copy(&self) -> (r: Signo)
        ensures
            r.spec_profile_id() == self.spec_profile_id(),
            r.spec_public_key() == self.spec_public_key(),
    {
        proof {
            use_type_invariant(self);
        }
        Signo {
            prof_id: self.prof_id.copy(),
            pubkey: self.pubkey.copy(),
            privkey: PrivateKey(copy_bytes(self.privkey.0.as_slice())),
        }
    }

    pub fn prof_id(&self) -> (r: &ProfileId)
        ensures
            r@ == self.spec_profile_id(),
    {
        &self.prof_id
    }

    pub fn pub_key(&self) -> (r: &PublicKey)
        ensures
            r@ == self.spec_public_key(),
    {
        &self.pubkey
    }

    /// Signs `data`; the signature verifies under this signer's public key.
    pub fn sign(&self, data: &[u8]) -> (r: Signature)
        ensures
            r@ == signature_of(data@, self.spec_public_key()),
            signature_verifies(data@, r@, self.spec_public_key()),
    {
        proof {
            use_type_invariant(self);
        }
        let mut sig = copy_bytes(data);
        append_bytes(&mut sig, self.privkey.0.as_slice());
        Signature(sig)
    }
}

impl RelationHalfProof {
    /// The signer's offer to form a relation of `relation_type` with `peer_id`.
    pub fn new(relation_type: &str, peer_id: &ProfileId, signer: &Signo) -> (r: RelationHalfProof)
        ensures
            r@ == (RelationHalfProofView {
                relation_type: relation_type@,
                signer_id: signer.spec_profile_id(),
                peer_id: peer_id@,
                signature: signature_of(
                    signable_part(relation_type@, signer.spec_profile_id(), peer_id@),
                    signer.spec_public_key(),
                ),
            }),
            half_proof_valid(r@, signer.spec_public_key()),
    {
        let rt = relation_type.to_owned();
        let me = signer.prof_id().copy();
        let payload = signable_bytes(&rt, &me, peer_id);
        let signature = signer.sign(payload.as_slice());
        RelationHalfProof { relation_type: rt, signer_id: me, peer_id: peer_id.copy(), signature }
    }
}

impl RelationProof {
    /// Countersigns a half proof addressed to `signer`, giving the full proof
    /// with the offering side as side a. Fails with `InvalidProof` when the
    /// half proof names another peer.
    pub fn sign_remaining_half(half: &RelationHalfProof, signer: &Signo) -> (r: Result<RelationProof, HomeError>)
        ensures
            r is Ok <==> half.peer_id@ == signer.spec_profile_id(),
            r matches Err(e) ==> e == HomeError::InvalidProof,
            r matches Ok(p) ==> p@ == (RelationProofView {
                relation_type: half.relation_type@,
                a_id: half.signer_id@,
                a_signature: half.signature@,
                b_id: signer.spec_profile_id(),
                b_signature: signature_of(
                    signable_part(half.relation_type@, signer.spec_profile_id(), half.signer_id@),
                    signer.spec_public_key(),
                ),
            }),
            forall|k: Seq<u8>| #[trigger] half_proof_valid(half@, k) ==> (r matches Ok(p) ==> proof_valid(p@, k, signer.spec_public_key())),
    {
        if !half.peer_id.same_as(signer.prof_id()) {
            return Err(HomeError::InvalidProof);
        }
        let payload = signable_bytes(&half.relation_type, signer.prof_id(), &half.signer_id);
        let b_signature = signer.sign(payload.as_slice());
        Ok(
            RelationProof {
                relation_type: copy_string(&half.relation_type),
                a_id: half.signer_id.copy(),
                a_signature: half.signature.copy(),
                b_id: signer.prof_id().copy(),
                b_signature,
            },
        )
    }
}

/// An empty persona profile for `pubkey`, identified by the key's hash.
pub fn make_own_persona_profile(pubkey: &PublicKey) -> (r: Profile)
    ensures
        r@ == (ProfileView {
            id: sha2_256_multihash(pubkey@),
            public_key: pubkey@,
            facet: FacetView::Persona { homes: Seq::empty(), data: Seq::empty() },
        }),
{
    let id = generate_hash_from_vec(copy_bytes(pubkey.0.as_slice()));
    let r = Profile {
        id: ProfileId(id),
        public_key: pubkey.copy(),
        facet: ProfileFacet::Persona(PersonaFacet { homes: Vec::new(), data: Vec::new() }),
    };
    assert(proofs_view(Seq::<RelationProof>::empty()) =~= Seq::empty());
    r
}

/// A home profile for `pubkey` reachable at the multiaddress `addr`,
/// identified by the key's hash; `None` when `addr` is no multiaddress.
pub fn make_home_profile(addr: &str, pubkey: &PublicKey) -> (r: Option<Profile>)
    ensures
        r is Some <==> multiaddr_bytes(addr@) is Some,
        r matches Some(p) ==> p@ == (ProfileView {
            id: sha2_256_multihash(pubkey@),
            public_key: pubkey@,
            facet: FacetView::Home { addrs: seq![multiaddr_bytes(addr@)->Some_0], data: Seq::empty() },
        }),
{
    match parse_multiaddr(addr) {
        None => None,
        Some(home_addr) => {
            let id = ProfileId(generate_hash_from_vec(copy_bytes(pubkey.0.as_slice())));
            Some(Profile::new_home(&id, pubkey, &home_addr))
        },
    }
}

/// The own profile of `p` with an empty private payload.
pub fn create_ownprofile(p: Profile) -> (r: OwnProfile)
    ensures
        r@ == (OwnProfileView { profile: p@, private_data: Seq::empty() }),
{
    let empty: Vec<u8> = Vec::new();
    OwnProfile::new(&p, empty.as_slice())
}

/// A proof between the fixed ids `TestMe` and `TestOther`, each signed by
/// its own name; it verifies under no key.
pub fn dummy_relation_proof(rel_type: &str) -> (r: RelationProof)
    ensures
        r@ == (RelationProofView {
            relation_type: rel_type@,
            a_id: encode_utf8("TestMe"@),
            a_signature: encode_utf8("TestMe"@),
            b_id: encode_utf8("TestOther"@),
            b_signature: encode_utf8("TestOther"@),
        }),
{
    let me = "TestMe".as_bytes();
    let other = "TestOther".as_bytes();
    RelationProof::new(
        rel_type,
        &ProfileId(copy_bytes(me)),
        &Signature(copy_bytes(me)),
        &ProfileId(copy_bytes(other)),
        &Signature(copy_bytes(other)),
    )
}

/// A relation with a persona keyed `too_hot_today`, bound by `dummy_relation_proof`.
pub fn dummy_relation(rel_type: &str) -> (r: Relation)
    ensures
        r@.profile == (ProfileView {
            id: sha2_256_multihash(encode_utf8("too_hot_today"@)),
            public_key: encode_utf8("too_hot_today"@),
            facet: FacetView::Persona { homes: Seq::empty(), data: Seq::empty() },
        }),
        r@.proof == dummy_relation_proof_view(rel_type@),
{
    let key = PublicKey(copy_bytes("too_hot_today".as_bytes()));
    let profile = make_own_persona_profile(&key);
    let proof = dummy_relation_proof(rel_type);
    Relation { profile, proof }
}

pub open spec fn dummy_relation_proof_view(rel_type: Seq<char>) -> RelationProofView {
    RelationProofView {
        relation_type: rel_type,
        a_id: encode_utf8("TestMe"@),
        a_signature: encode_utf8("TestMe"@),
        b_id: encode_utf8("TestOther"@),
        b_signature: encode_utf8("TestOther"@),
    }
}

} // verus!
