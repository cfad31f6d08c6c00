use mercury_connect::channel::{BoundedChannel, ChannelId};
use mercury_connect::dapp::DAppConnect;
use mercury_connect::fixture::TestSetup;
use mercury_connect::gateway::{DummyConnector, ProfileGateway};
use mercury_connect::home::{MyDummyHome, HomeInvitation, ProfileEvent};
use mercury_connect::identity::{
    AppMessageFrame, ApplicationId, HomeError, OwnProfile, ProfileFacet, ProfileId, PublicKey, Relation,
    RelationHalfProof, RelationProof,
};
use mercury_connect::rpc::Session;
use mercury_connect::service::{ProfileGatewayFactory, ServiceImpl, SettingsImpl, SignerFactory};
use mercury_connect::signer::{create_ownprofile, make_own_persona_profile, Signo};
use mercury_connect::store::ProfileStore;

fn setup() -> TestSetup {
    TestSetup::setup().expect("the sample address parses")
}

fn hosting_offer(signer: &Signo, home: &ProfileId) -> RelationHalfProof {
    RelationHalfProof::new("hosted-on-home", home, signer)
}

fn persona(seed: &str) -> (Signo, OwnProfile) {
    let s = Signo::new(seed);
    let own = create_ownprofile(make_own_persona_profile(s.pub_key()));
    (s, own)
}

fn homes_of(own: &OwnProfile) -> Vec<RelationProof> {
    match &own.profile.facet {
        ProfileFacet::Persona(p) => p.homes.clone(),
        ProfileFacet::Home(_) => panic!("expected a persona"),
    }
}

#[test]
fn setup_builds_a_reachable_home() {
    let t = setup();
    assert_eq!(&t.homeprofileid, t.homesigner.prof_id());
    assert_eq!(&t.userid, t.usersigner.prof_id());
    assert_eq!(t.homeaddr, "/ip4/127.0.0.1/udp/9876");
    assert_eq!(t.profilegate.connect_home(&t.connector, &t.homeprofileid), Ok(()));
    assert_eq!(t.profilegate.connect_home(&t.connector, &t.userid), Err(HomeError::NotFound));
}

#[test]
fn register_appends_countersigned_home_proof() {
    let mut t = setup();
    let half = hosting_offer(&t.usersigner, &t.homeprofileid);
    let registered = t.connector.home.register(t.userownprofile.clone(), &half, None).unwrap();
    let homes = homes_of(&registered);
    assert_eq!(homes.len(), 1);
    assert_eq!(homes[0].a_id, t.userid);
    assert_eq!(homes[0].b_id, t.homeprofileid);
    assert!(homes[0].verify(t.usersigner.pub_key(), t.homesigner.pub_key()));
    assert_eq!(t.connector.home.load(&t.userid).unwrap(), registered.profile);
    assert_eq!(t.connector.home.list().len(), 2);
    assert_eq!(t.connector.home.claim(&t.userid).unwrap(), registered);
}

#[test]
fn register_twice_fails_with_unchanged_profile() {
    let mut t = setup();
    let half = hosting_offer(&t.usersigner, &t.homeprofileid);
    assert!(t.connector.home.register(t.userownprofile.clone(), &half, None).is_ok());
    let second = t.connector.home.register(t.userownprofile.clone(), &half, Some(HomeInvitation(vec![1])));
    assert_eq!(second, Err((t.userownprofile.clone(), HomeError::RegistrationFailed)));
    let (other, _) = persona("other");
    let bogus = hosting_offer(&other, &t.homeprofileid);
    let third = t.connector.home.register(t.userownprofile.clone(), &bogus, None);
    assert_eq!(third, Err((t.userownprofile.clone(), HomeError::RegistrationFailed)));
}

#[test]
fn register_rejects_home_facet() {
    let mut t = setup();
    let own = OwnProfile { profile: t.homeprofile.clone(), private_data: vec![9] };
    let half = hosting_offer(&t.homesigner, &t.homeprofileid);
    let r = t.connector.home.register(own.clone(), &half, None);
    assert_eq!(r, Err((own, HomeError::RegistrationFailed)));
    assert!(t.connector.home.claim(&t.userid).is_err());
}

#[test]
fn register_rejects_foreign_offer() {
    let mut t = setup();
    let (other, _) = persona("other");
    let half = hosting_offer(&other, &t.homeprofileid);
    let r = t.connector.home.register(t.userownprofile.clone(), &half, None);
    assert_eq!(r, Err((t.userownprofile.clone(), HomeError::InvalidProof)));
}

#[test]
fn claim_unknown_profile_is_not_found() {
    let t = setup();
    assert_eq!(t.connector.home.claim(&ProfileId(b"ghost".to_vec())), Err(HomeError::NotFound));
    assert_eq!(t.connector.home.resolve("somewhere"), Err(HomeError::ResolutionFailed));
}

#[test]
fn second_login_closes_first_session() {
    let mut t = setup();
    let half = hosting_offer(&t.usersigner, &t.homeprofileid);
    let registered = t.connector.home.register(t.userownprofile.clone(), &half, None).unwrap();
    let proof = homes_of(&registered)[0].clone();
    let first = t.connector.home.login(&proof).unwrap();
    assert!(t.connector.home.is_live(&first));
    let second = t.connector.home.login(&proof).unwrap();
    assert!(!t.connector.home.is_live(&first));
    assert!(t.connector.home.is_live(&second));
    assert_ne!(first.token(), second.token());

    let (peer, peer_own) = persona("peer");
    let peer_half = hosting_offer(&peer, &t.homeprofileid);
    t.connector.home.register(peer_own, &peer_half, None).unwrap();
    let offer = RelationHalfProof::new("enable-calls-between", &t.userid, &peer);
    assert_eq!(t.connector.home.pair_request(&offer), Ok(()));
    assert!(first.events(&mut t.connector.home).is_empty());
    let events = second.events(&mut t.connector.home);
    assert_eq!(events, vec![ProfileEvent::PairingRequest(offer)]);
    assert!(second.events(&mut t.connector.home).is_empty());
}

#[test]
fn login_with_foreign_proof_fails() {
    let mut t = setup();
    let (alice, _) = persona("alice");
    let (bob, _) = persona("bob");
    let half = RelationHalfProof::new("hosted-on-home", bob.prof_id(), &alice);
    let proof = RelationProof::sign_remaining_half(&half, &bob).unwrap();
    assert_eq!(t.connector.home.login(&proof).err(), Some(HomeError::LoginFailed));
}

#[test]
fn pairing_response_reaches_initiator() {
    let mut t = setup();
    let registered = t
        .connector
        .home
        .register(t.userownprofile.clone(), &hosting_offer(&t.usersigner, &t.homeprofileid), None)
        .unwrap();
    let (peer, peer_own) = persona("peer");
    t.connector.home.register(peer_own, &hosting_offer(&peer, &t.homeprofileid), None).unwrap();
    let session = t.connector.home.login(&homes_of(&registered)[0]).unwrap();
    let offer = RelationHalfProof::new("enable-calls-between", peer.prof_id(), &t.usersigner);
    let proof = RelationProof::sign_remaining_half(&offer, &peer).unwrap();
    assert_eq!(t.connector.home.pair_response(&proof), Ok(()));
    assert_eq!(session.events(&mut t.connector.home), vec![ProfileEvent::PairingResponse(proof.clone())]);
    let mut forged = proof.clone();
    forged.b_signature.0.push(1);
    assert_eq!(t.connector.home.pair_response(&forged), Err(HomeError::InvalidProof));
    let stranger = RelationHalfProof::new("enable-calls-between", &ProfileId(b"nobody".to_vec()), &peer);
    assert_eq!(t.connector.home.pair_request(&stranger), Err(HomeError::PairingFailed));
}

#[test]
fn session_update_ping_and_unregister() {
    let mut t = setup();
    let registered = t
        .connector
        .home
        .register(t.userownprofile.clone(), &hosting_offer(&t.usersigner, &t.homeprofileid), None)
        .unwrap();
    let session = t.connector.home.login(&homes_of(&registered)[0]).unwrap();
    assert_eq!(session.ping("hahoooo"), "hahoooo");
    let mut changed = registered.clone();
    changed.private_data = vec![1, 2, 3];
    assert_eq!(session.update(&mut t.connector.home, &changed), Ok(()));
    assert_eq!(t.connector.home.claim(&t.userid).unwrap().private_data, vec![1, 2, 3]);
    let (_, elsewhere) = persona("elsewhere");
    assert_eq!(session.unregister(&mut t.connector.home, Some(elsewhere.profile.clone())), Ok(()));
    assert_eq!(t.connector.home.successor_of(&t.userid), Some(elsewhere.profile));
    assert!(!t.connector.home.is_live(&session));
    assert_eq!(t.connector.home.load(&t.userid).err(), Some(HomeError::NotFound));
    assert_eq!(session.unregister(&mut t.connector.home, None), Err(HomeError::LoginFailed));
}

#[test]
fn gateway_login_caches_session() {
    let mut t = setup();
    assert_eq!(t.profilegate.login(&mut t.connector).err(), Some(HomeError::LoginFailed));
    let homeid = t.homeprofileid.clone();
    t.profilegate.register(&mut t.connector, &homeid, t.userownprofile.clone(), None).unwrap();
    let first = t.profilegate.login(&mut t.connector).unwrap();
    let again = t.profilegate.login(&mut t.connector).unwrap();
    assert_eq!(first, again);
    assert_eq!(first.profile_id(), &t.userid);
}

#[test]
fn gateway_register_on_unknown_home_fails() {
    let mut t = setup();
    let r = t.profilegate.register(&mut t.connector, &ProfileId(b"nowhere".to_vec()), t.userownprofile.clone(), None);
    assert_eq!(r, Err((t.userownprofile.clone(), HomeError::NotFound)));
}

struct Pair {
    connector: DummyConnector,
    a: DAppConnect,
    b: DAppConnect,
    a_id: ProfileId,
    b_id: ProfileId,
}

fn two_paired_apps() -> Pair {
    let mut t = setup();
    let homeid = t.homeprofileid.clone();
    let app = ApplicationId("chat".to_string());
    let (bob, bob_own) = persona("bob");
    let mut a_gate = t.profilegate;
    let mut b_gate = ProfileGateway::new(bob.copy());
    a_gate.register(&mut t.connector, &homeid, t.userownprofile.clone(), None).unwrap();
    b_gate.register(&mut t.connector, &homeid, bob_own.clone(), None).unwrap();
    let half = RelationHalfProof::new("enable-calls-between", bob.prof_id(), &t.usersigner);
    let proof = RelationProof::sign_remaining_half(&half, &bob).unwrap();
    let mut a = DAppConnect::new(a_gate, &app);
    let mut b = DAppConnect::new(b_gate, &app);
    a.add_contact(Relation::new(&bob_own.profile, &proof));
    b.add_contact(Relation::new(&t.user, &proof));
    Pair { connector: t.connector, a, b, a_id: t.userid, b_id: bob.prof_id().clone() }
}

#[test]
fn call_round_trip() {
    let mut p = two_paired_apps();
    assert_eq!(p.b.checkin(&mut p.connector).unwrap().len(), 0);
    let call = p.a.call(&mut p.connector, &p.b_id, AppMessageFrame(b"ping".to_vec())).unwrap();
    let incoming = p.b.checkin(&mut p.connector).unwrap();
    assert_eq!(incoming.len(), 1);
    assert_eq!(incoming[0].init_payload, AppMessageFrame(b"ping".to_vec()));
    assert_eq!(incoming[0].caller, p.a_id);
    assert_eq!(incoming[0].to_caller, Some(call.receiver));
    assert_eq!(incoming[0].from_caller, call.sender);
    let b_session = p.b.login(&mut p.connector).unwrap();
    assert_eq!(
        b_session.events(&mut p.connector.home),
        vec![ProfileEvent::IncomingCall(ApplicationId("chat".to_string()))]
    );
    assert_eq!(p.connector.home.send(incoming[0].to_caller.unwrap(), AppMessageFrame(b"pong".to_vec())), Ok(()));
    assert_eq!(p.connector.home.recv(call.receiver), Some(AppMessageFrame(b"pong".to_vec())));
    assert_eq!(p.connector.home.send(call.sender, AppMessageFrame(b"more".to_vec())), Ok(()));
    assert_eq!(p.connector.home.recv(incoming[0].from_caller), Some(AppMessageFrame(b"more".to_vec())));
    p.connector.home.close_channel(call.sender);
    assert!(p.connector.home.send(call.sender, AppMessageFrame(b"late".to_vec())).is_err());
    assert!(p.b.checkin(&mut p.connector).unwrap().is_empty());
}

#[test]
fn call_to_absent_callee_is_refused() {
    let mut p = two_paired_apps();
    let r = p.a.call(&mut p.connector, &p.b_id, AppMessageFrame(b"ping".to_vec()));
    assert_eq!(r, Err(HomeError::CallRefused));
}

#[test]
fn call_without_relation_fails() {
    let mut p = two_paired_apps();
    let stranger = ProfileId(b"stranger".to_vec());
    assert_eq!(p.a.get_relation_proof(&stranger).err(), Some(HomeError::PairingFailed));
    let r = p.a.call(&mut p.connector, &stranger, AppMessageFrame(b"ping".to_vec()));
    assert_eq!(r, Err(HomeError::PairingFailed));
    assert_eq!(p.a.selected_profile(), &p.a_id);
}

#[test]
fn calls_for_other_apps_stay_queued() {
    let mut p = two_paired_apps();
    p.b.checkin(&mut p.connector).unwrap();
    let relation = p.a.get_relation_proof(&p.b_id).unwrap();
    let other = ApplicationId("other".to_string());
    let fwd = p.connector.home.call(&p.a_id, &relation.proof, &other, AppMessageFrame(vec![1]), None).unwrap();
    assert!(fwd.is_some());
    assert!(p.b.checkin(&mut p.connector).unwrap().is_empty());
    let session = p.b.login(&mut p.connector).unwrap();
    let waiting = session.checkin_app(&mut p.connector.home, &other);
    assert_eq!(waiting.len(), 1);
    assert_eq!(waiting[0].to_caller, None);
}

#[test]
fn full_channel_holds_back_the_sender() {
    let mut c = BoundedChannel::new(2);
    assert!(c.try_send(AppMessageFrame(vec![1])).is_ok());
    assert!(c.try_send(AppMessageFrame(vec![2])).is_ok());
    assert_eq!(c.try_send(AppMessageFrame(vec![3])), Err(AppMessageFrame(vec![3])));
    assert_eq!(c.len(), 2);
    assert_eq!(c.try_recv(), Some(AppMessageFrame(vec![1])));
    assert!(c.try_send(AppMessageFrame(vec![3])).is_ok());
    assert_eq!(c.try_recv(), Some(AppMessageFrame(vec![2])));
    assert_eq!(c.try_recv(), Some(AppMessageFrame(vec![3])));
    assert_eq!(c.try_recv(), None);
    c.close();
    assert!(c.is_closed());
    assert_eq!(c.try_send(AppMessageFrame(vec![4])), Err(AppMessageFrame(vec![4])));
}

#[test]
fn unknown_channel_refuses_traffic() {
    let mut t = setup();
    assert!(t.connector.home.send(ChannelId(5), AppMessageFrame(vec![1])).is_err());
    assert_eq!(t.connector.home.recv(ChannelId(5)), None);
}

#[test]
fn profile_store_operations() {
    let mut store = ProfileStore::new();
    let p = make_own_persona_profile(&PublicKey(vec![1, 2]));
    assert_eq!(store.insert(p.id.clone(), p.clone()), None);
    assert_eq!(store.insert(p.id.clone(), p.clone()), Some(p.clone()));
    assert_eq!(store.load(&p.id), Ok(p.clone()));
    assert_eq!(store.get(&ProfileId(vec![0])), None);
    assert_eq!(store.load(&ProfileId(vec![0])), Err(HomeError::NotFound));
    assert_eq!(store.resolve("x"), Err(HomeError::ResolutionFailed));
    let q = make_own_persona_profile(&PublicKey(vec![3]));
    store.insert(q.id.clone(), q.clone());
    let listed = store.list();
    assert_eq!(listed.len(), 2);
    assert!(listed.contains(&p) && listed.contains(&q));
    assert!(store.remove(&p.id));
    assert_eq!(store.list(), vec![q]);
    assert!(!store.contains(&p.id));
}

#[test]
fn home_needs_its_own_signer() {
    let t = setup();
    let wrong = Signo::new("someone else");
    assert!(MyDummyHome::new(t.homeprofile.clone(), wrong, ProfileStore::new()).is_none());
}

#[test]
fn settings_join_home() {
    let mut t = setup();
    let mut signers = SignerFactory::new();
    signers.add(t.usersigner.copy());
    let factory = ProfileGatewayFactory { signer_factory: signers };
    assert!(factory.gateway(&ProfileId(b"nobody".to_vec())).is_none());
    let mut settings = SettingsImpl::new(factory);
    let mut signers2 = SignerFactory::new();
    signers2.add(t.usersigner.copy());
    let service = ServiceImpl { gateways: ProfileGatewayFactory { signer_factory: signers2 } };
    let endpoint = service.dapp_endpoint(&t.userid, &ApplicationId("app".to_string())).unwrap();
    assert_eq!(endpoint.selected_profile(), &t.userid);
    assert_eq!(service.dapp_endpoint(&ProfileId(vec![5]), &ApplicationId("app".to_string())).err(), Some(HomeError::NotFound));
    settings.add_profile(t.userownprofile.clone());
    assert_eq!(settings.homes(&t.userid).unwrap().len(), 0);
    let homeid = t.homeprofileid.clone();
    assert_eq!(settings.join_home(&mut t.connector, &t.userid, &homeid), Ok(()));
    let homes = settings.homes(&t.userid).unwrap();
    assert_eq!(homes.len(), 1);
    assert_eq!(homes[0].b_id, homeid);
    assert_eq!(settings.profiles().unwrap().len(), 1);
    assert_eq!(settings.join_home(&mut t.connector, &ProfileId(vec![3]), &homeid), Err(HomeError::NotFound));
}

#[test]
fn subscription_cancel_is_idempotent() {
    let mut s = Session::new();
    assert!(s.dapp_session().is_none());
    assert_eq!(s.set_cancel_events(7), None);
    assert_eq!(s.set_cancel_events(8), Some(7));
    assert_eq!(s.take_cancel_events(), Some(8));
    assert_eq!(s.take_cancel_events(), None);
}

#[test]
fn connecting_to_a_persona_fails() {
    let mut t = setup();
    let homeid = t.homeprofileid.clone();
    t.profilegate.register(&mut t.connector, &homeid, t.userownprofile.clone(), None).unwrap();
    assert_eq!(t.profilegate.connect_home(&t.connector, &t.userid), Err(HomeError::ConnectionFailed));
    assert_eq!(t.connector.connect(&t.user), Err(HomeError::ConnectionFailed));
    assert_eq!(t.connector.connect(&t.homeprofile), Ok(()));
}

#[test]
fn stale_or_foreign_session_update_fails() {
    let mut t = setup();
    let registered = t
        .connector
        .home
        .register(t.userownprofile.clone(), &hosting_offer(&t.usersigner, &t.homeprofileid), None)
        .unwrap();
    let proof = homes_of(&registered)[0].clone();
    let first = t.connector.home.login(&proof).unwrap();
    let (_, other_own) = persona("other");
    assert_eq!(first.update(&mut t.connector.home, &other_own), Err(HomeError::InvalidProof));
    let _second = t.connector.home.login(&proof).unwrap();
    assert_eq!(first.update(&mut t.connector.home, &registered), Err(HomeError::LoginFailed));
    let forged = mercury_connect::home::HomeSessionDummy::new(t.userid.clone(), 99);
    assert!(!t.connector.home.is_live(&forged));
}

#[test]
fn gateway_call_needs_to_be_named_in_proof() {
    let mut p = two_paired_apps();
    let (carol, _) = persona("carol");
    let (dave, _) = persona("dave");
    let half = RelationHalfProof::new("enable-calls-between", dave.prof_id(), &carol);
    let proof = RelationProof::sign_remaining_half(&half, &dave).unwrap();
    let gate = ProfileGateway::new(Signo::new("Deusz"));
    let r = gate.call(&mut p.connector, &proof, &ApplicationId("chat".to_string()), AppMessageFrame(vec![]), None);
    assert_eq!(r, Err(HomeError::InvalidProof));
}

#[test]
fn gateway_login_uses_local_profile() {
    let mut t = setup();
    let homeid = t.homeprofileid.clone();
    let registered = t.connector.home.register(t.userownprofile.clone(), &hosting_offer(&t.usersigner, &homeid), None).unwrap();
    assert_eq!(t.profilegate.login(&mut t.connector).err(), Some(HomeError::LoginFailed));
    t.profilegate.set_own_profile(registered);
    assert!(t.profilegate.login(&mut t.connector).is_ok());
}

#[test]
fn checkin_without_home_proof_fails() {
    let mut t = setup();
    let mut d = DAppConnect::new(t.profilegate, &ApplicationId("chat".to_string()));
    assert_eq!(d.checkin(&mut t.connector).err(), Some(HomeError::LoginFailed));
}
