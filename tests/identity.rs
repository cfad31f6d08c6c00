use mercury_connect::error::{
    HashError, HashSpaceError, SerializerError, StorageError, StringCoderError,
};
use mercury_connect::identity::{
    signable_bytes, verify_signature, AppMessageFrame, HomeError, OwnProfile, PersonaFacet, Profile, ProfileFacet,
    ProfileId, PublicKey, RelationProof, Signature,
};
use mercury_connect::signer::{
    create_ownprofile, dummy_relation, dummy_relation_proof, generate_hash, generate_hash_from_vec,
    make_home_profile, make_own_persona_profile, Signo,
};
use mercury_connect::identity::RelationHalfProof;

fn id(b: &[u8]) -> ProfileId {
    ProfileId(b.to_vec())
}

#[test]
fn hash_error_descriptions() {
    assert_eq!(HashError::UnsupportedType.description(), "This type is not supported yet");
    assert_eq!(HashError::BadInputLength.description(), "Not matching input length");
    assert_eq!(HashError::UnknownCode.description(), "Found unknown code");
    assert_eq!(HashError::Other("boom".to_string()).description(), "boom");
}

#[test]
fn other_error_descriptions() {
    assert_eq!(StorageError::OutOfDiskSpace.description(), "Run out of disk space");
    assert_eq!(StorageError::InvalidKey.description(), "The given key holds no value");
    assert_eq!(StorageError::StringError("disk".to_string()).description(), "disk");
    assert_eq!(SerializerError::DeserializationError("bad json".to_string()).description(), "bad json");
    assert_eq!(StringCoderError::Other("coder".to_string()).description(), "coder");
    assert_eq!(HashSpaceError::HashError(HashError::UnknownCode).description(), "Found unknown code");
    assert_eq!(HashSpaceError::StorageError(StorageError::InvalidKey).description(), "The given key holds no value");
    assert_eq!(HashSpaceError::UnknownHashSpace("hs".to_string()).description(), "hs");
}

#[test]
fn sha2_256_multihash_of_hello_world() {
    let expected = vec![
        18, 32, 185, 77, 39, 185, 147, 77, 62, 8, 165, 46, 82, 215, 218, 125, 171, 250, 196, 132, 239, 227, 122, 83,
        128, 238, 144, 136, 247, 172, 226, 239, 205, 233,
    ];
    assert_eq!(generate_hash("hello world"), expected);
    assert_eq!(generate_hash_from_vec(b"hello world".to_vec()), expected);
}

#[test]
fn signer_ids_derive_from_keys() {
    let s = Signo::new("homesigner");
    assert_eq!(s.pub_key().0, generate_hash("homesigner"));
    assert_eq!(s.prof_id().0, generate_hash_from_vec(generate_hash("homesigner")));
    let sig = s.sign(b"abc");
    let mut expected = b"abc".to_vec();
    expected.extend_from_slice(&s.pub_key().0);
    assert_eq!(sig.0, expected);
    assert!(verify_signature(b"abc", &sig, s.pub_key()));
    assert!(!verify_signature(b"abd", &sig, s.pub_key()));
}

#[test]
fn signable_bytes_are_length_prefixed() {
    let b = signable_bytes(&"ab".to_string(), &id(&[7]), &id(&[]));
    let expected = vec![2, 0, 0, 0, 0, 0, 0, 0, b'a', b'b', 1, 0, 0, 0, 0, 0, 0, 0, 7, 0, 0, 0, 0, 0, 0, 0, 0];
    assert_eq!(b, expected);
}

fn paired() -> (Signo, Signo, RelationProof) {
    let alice = Signo::new("alice");
    let bob = Signo::new("bob");
    let half = RelationHalfProof::new("enable-calls-between", bob.prof_id(), &alice);
    assert!(half.verify(alice.pub_key()));
    let proof = RelationProof::sign_remaining_half(&half, &bob).unwrap();
    (alice, bob, proof)
}

#[test]
fn proof_verifies_from_both_sides() {
    let (alice, bob, proof) = paired();
    assert!(proof.verify(alice.pub_key(), bob.pub_key()));
    assert!(proof.verify_for(alice.prof_id(), alice.pub_key(), bob.pub_key()));
    assert!(proof.verify_for(bob.prof_id(), bob.pub_key(), alice.pub_key()));
    let swapped = proof.swap();
    assert!(swapped.verify(bob.pub_key(), alice.pub_key()));
    assert!(swapped.verify_for(alice.prof_id(), alice.pub_key(), bob.pub_key()));
    assert!(!proof.verify(bob.pub_key(), alice.pub_key()));
}

#[test]
fn tampered_proofs_fail() {
    let (alice, bob, proof) = paired();
    let mut p = proof.clone();
    p.relation_type = "hosted-on-home".to_string();
    assert!(!p.verify(alice.pub_key(), bob.pub_key()));
    let mut p = proof.clone();
    p.a_id = id(b"mallory");
    assert!(!p.verify(alice.pub_key(), bob.pub_key()));
    let mut p = proof.clone();
    p.b_id = id(b"mallory");
    assert!(!p.verify(alice.pub_key(), bob.pub_key()));
    let mut p = proof.clone();
    p.a_signature.0.push(0);
    assert!(!p.verify(alice.pub_key(), bob.pub_key()));
    let mut p = proof.clone();
    p.b_signature.0[0] ^= 1;
    assert!(!p.verify(alice.pub_key(), bob.pub_key()));
}

#[test]
fn countersigning_needs_the_addressed_peer() {
    let alice = Signo::new("alice");
    let bob = Signo::new("bob");
    let carol = Signo::new("carol");
    let half = RelationHalfProof::new("enable-calls-between", bob.prof_id(), &alice);
    assert_eq!(RelationProof::sign_remaining_half(&half, &carol), Err(HomeError::InvalidProof));
}

#[test]
fn peer_id_from_each_side() {
    let (alice, bob, proof) = paired();
    assert_eq!(proof.peer_id(alice.prof_id()), Ok(bob.prof_id().clone()));
    assert_eq!(proof.peer_id(bob.prof_id()), Ok(alice.prof_id().clone()));
    assert_eq!(proof.peer_id(&id(b"nobody")), Err(HomeError::InvalidProof));
}

#[test]
fn dummy_relation_fixtures() {
    let p = dummy_relation_proof("friend");
    assert_eq!(p.relation_type, "friend");
    assert_eq!(p.a_id, id(b"TestMe"));
    assert_eq!(p.a_signature, Signature(b"TestMe".to_vec()));
    assert_eq!(p.b_id, id(b"TestOther"));
    let r = dummy_relation("friend");
    assert_eq!(r.proof, p);
    assert_eq!(r.profile.public_key, PublicKey(b"too_hot_today".to_vec()));
    assert_eq!(r.profile.id.0, generate_hash("too_hot_today"));
}

#[test]
fn persona_and_home_profiles() {
    let key = PublicKey(b"key".to_vec());
    let persona = make_own_persona_profile(&key);
    assert_eq!(persona.id.0, generate_hash("key"));
    assert_eq!(persona.facet, ProfileFacet::Persona(PersonaFacet { homes: vec![], data: vec![] }));
    let own = create_ownprofile(persona.clone());
    assert_eq!(own, OwnProfile { profile: persona, private_data: vec![] });
    let home = make_home_profile("/ip4/127.0.0.1/udp/9876", &key).unwrap();
    match home.facet {
        ProfileFacet::Home(h) => assert_eq!(h.addrs, vec![vec![4, 127, 0, 0, 1, 145, 2, 38, 148]]),
        _ => panic!("expected a home facet"),
    }
    assert!(make_home_profile("ip4/127.0.0.1", &key).is_none());
}

#[test]
fn profile_needs_exactly_one_facet() {
    let persona = ProfileFacet::Persona(PersonaFacet { homes: vec![], data: vec![] });
    let home = ProfileFacet::Home(mercury_connect::identity::HomeFacet { addrs: vec![vec![1]], data: vec![] });
    let key = PublicKey(vec![1]);
    assert!(Profile::from_facets(&id(b"p"), &key, &[persona.clone(), home]).is_none());
    assert!(Profile::from_facets(&id(b"p"), &key, &[]).is_none());
    let p = Profile::from_facets(&id(b"p"), &key, &[persona.clone()]).unwrap();
    assert_eq!(p, Profile::new(&id(b"p"), &key, &persona));
    let _ = AppMessageFrame(vec![]);
}
