//! A home held in memory: it stores the profiles it hosts, countersigns
//! their registration, opens one session per profile at a time, queues
//! pairing events and incoming calls, and mediates call channels.
use vstd::prelude::*;
use crate::bytes::copy_bytes;
use crate::channel::{ChannelId, ChannelTable, ChannelView, CHANNEL_CAPACITY};
use crate::idmap::IdMap;
use crate::identity::{
    copy_proofs, half_proof_valid, hosted_on_home_type, lemma_tamper_detection, one_field_changed, peer_of,
    proof_fits, proof_valid, proof_valid_for, proofs_view, relation_type_hosted_on_home, signable_part, signature_of, AppMessageFrame, ApplicationId, FacetView,
    HomeError, OwnProfile, OwnProfileView, PersonaFacet, Profile, ProfileFacet, ProfileId, ProfileView,
    RelationHalfProof, RelationHalfProofView, RelationProof, RelationProofView,
};
use crate::signer::Signo;
use crate::store::ProfileStore;

verus! {

/// An invitation to register on a home.
#[derive(Debug, Clone, PartialEq, Eq)]
pub struct HomeInvitation(pub Vec<u8>);

/// Notification from a home to the session of a profile it hosts.
#[derive(Debug, Clone, PartialEq, Eq)]
pub enum ProfileEvent {
    /// A peer offers a relation; the profile may countersign it.
    PairingRequest(RelationHalfProof),
    /// A peer countersigned an offer of this profile.
    PairingResponse(RelationProof),
    /// A call for the application is waiting to be checked in.
    IncomingCall(ApplicationId),
}

pub enum ProfileEventView {
    PairingRequest(RelationHalfProofView),
    PairingResponse(RelationProofView),
    IncomingCall(Seq<char>),
}

impl View for ProfileEvent {
    type V = ProfileEventView;

    open spec fn view(&self) -> ProfileEventView {
        match self {
            ProfileEvent::PairingRequest(h) => ProfileEventView::PairingRequest(h@),
            ProfileEvent::PairingResponse(p) => ProfileEventView::PairingResponse(p@),
            ProfileEvent::IncomingCall(a) => ProfileEventView::IncomingCall(a@),
        }
    }
}

pub open spec fn events_view(v: Seq<ProfileEvent>) -> Seq<ProfileEventView> {
    v.map_values(|e: ProfileEvent| e@)
}

/// A call offered to a callee: who calls, for which application, with which
/// first message; the callee reads the caller on `from_caller` and answers
/// on `to_caller`, when the caller gave one.
#[derive(Debug, Clone, PartialEq, Eq)]
pub struct IncomingCall {
    pub caller: ProfileId,
    pub app: ApplicationId,
    pub init_payload: AppMessageFrame,
    pub to_caller: Option<ChannelId>,
    pub from_caller: ChannelId,
}

/// Handle of an open session: the profile and the token of its login.
#[derive(Debug, Clone, PartialEq, Eq)]
pub struct HomeSessionDummy {
    profile_id: ProfileId,
    token: u64,
}

pub struct HomeSessionView {
    pub profile: Seq<u8>,
    pub token: u64,
}

impl View for HomeSessionDummy {
    type V = HomeSessionView;

    closed spec fn view(&self) -> HomeSessionView {
        HomeSessionView { profile: self.profile_id@, token: self.token }
    }
}

impl HomeSessionDummy {
    /// A handle on the session of `prof` opened with token `token`; the home
    /// treats it as live only while that is its profile's latest login.
    pub fn new(prof: ProfileId, token: u64) -> (r: HomeSessionDummy)
        ensures
            r@ == (HomeSessionView { profile: prof@, token }),
    {
        HomeSessionDummy { profile_id: prof, token }
    }

    pub fn profile_id(&self) -> (r: &ProfileId)
        ensures
            r@ == self@.profile,
    {
        &self.profile_id
    }

    /// Another handle on the same session.
    pub fn clone_handle(&self) -> (r: HomeSessionDummy)
        ensures
            r@ == self@,
    {
        HomeSessionDummy { profile_id: self.profile_id.copy(), token: self.token }
    }

    pub fn token(&self) -> (r: u64)
        ensures
            r == self@.token,
    {
        self.token
    }
}

/// A session is live while its token is the last one issued to its profile.
pub open spec fn session_live(sessions: Map<Seq<u8>, u64>, s: HomeSessionView) -> bool {
    sessions.contains_key(s.profile) && sessions[s.profile] == s.token
}

/// Sessions and the next token after a login of `id`.
pub open spec fn after_login(sessions: Map<Seq<u8>, u64>, next: u64, id: Seq<u8>) -> (Map<Seq<u8>, u64>, u64) {
    (sessions.insert(id, next), (next + 1) as u64)
}

/// The full proof that a home issues for an accepted registration offer.
pub open spec fn hosted_proof(half: RelationHalfProofView, home_id: Seq<u8>, home_key: Seq<u8>) -> RelationProofView {
    RelationProofView {
        relation_type: half.relation_type,
        a_id: half.signer_id,
        a_signature: half.signature,
        b_id: home_id,
        b_signature: signature_of(signable_part(half.relation_type, home_id, half.signer_id), home_key),
    }
}

/// The offer is a hosted-on-home offer of the profile itself to this home,
/// signed with the profile's key.
pub open spec fn registration_offer_ok(own: OwnProfileView, half: RelationHalfProofView, home_id: Seq<u8>) -> bool {
    &&& half.relation_type == hosted_on_home_type()
    &&& half.signer_id == own.profile.id
    &&& half.peer_id == home_id
    &&& half_proof_valid(half, own.profile.public_key)
}

/// The own profile with `proof` appended to the homes of its persona facet.
pub open spec fn with_home(own: OwnProfileView, proof: RelationProofView) -> OwnProfileView {
    match own.profile.facet {
        FacetView::Persona { homes, data } => OwnProfileView {
            profile: ProfileView { facet: FacetView::Persona { homes: homes.push(proof), data }, ..own.profile },
            ..own
        },
        FacetView::Home { .. } => own,
    }
}

/// What registering `own` with the offer `half` gives on a home with id
/// `home_id` and key `home_key` that already hosts the ids in `registered`.
pub open spec fn register_outcome(
    registered: Set<Seq<u8>>,
    home_id: Seq<u8>,
    home_key: Seq<u8>,
    own: OwnProfileView,
    half: RelationHalfProofView,
) -> Result<OwnProfileView, HomeError> {
    if !(own.profile.facet is Persona) {
        Err(HomeError::RegistrationFailed)
    } else if registered.contains(own.profile.id) {
        Err(HomeError::RegistrationFailed)
    } else if !registration_offer_ok(own, half, home_id) {
        Err(HomeError::InvalidProof)
    } else {
        Ok(with_home(own, hosted_proof(half, home_id, home_key)))
    }
}

/// A second registration of a profile that was registered fails with
/// `RegistrationFailed`, whatever offer the second registration carries.
pub proof fn lemma_register_twice_fails(
    registered: Set<Seq<u8>>,
    home_id: Seq<u8>,
    home_key: Seq<u8>,
    own: OwnProfileView,
    half: RelationHalfProofView,
    second_half: RelationHalfProofView,
)
    requires
        register_outcome(registered, home_id, home_key, own, half) is Ok,
    ensures
        register_outcome(registered.insert(own.profile.id), home_id, home_key, own, second_half)
            == Err::<OwnProfileView, HomeError>(HomeError::RegistrationFailed),
{
}

/// A login with `proof` is accepted: it is a hosted-on-home proof between a
/// stored profile, on side a, and this home, on side b, and both signatures
/// verify under the keys of the two.
pub open spec fn login_accepted(
    profiles: Map<Seq<u8>, Profile>,
    home_id: Seq<u8>,
    home_key: Seq<u8>,
    proof: RelationProofView,
) -> bool {
    &&& proof.relation_type == hosted_on_home_type()
    &&& proof.b_id == home_id
    &&& profiles.contains_key(proof.a_id)
    &&& proof_valid(proof, profiles[proof.a_id]@.public_key, home_key)
}

/// A login proof that the home accepts is refused once its relation type or
/// one of its signatures is changed, or its home side is replaced.
pub proof fn lemma_tampered_login_refused(
    profiles: Map<Seq<u8>, Profile>,
    home_id: Seq<u8>,
    home_key: Seq<u8>,
    p: RelationProofView,
    q: RelationProofView,
)
    requires
        login_accepted(profiles, home_id, home_key, p),
        one_field_changed(p, q),
        q.a_id == p.a_id,
        proof_fits(p),
        proof_fits(q),
    ensures
        !login_accepted(profiles, home_id, home_key, q),
{
    if login_accepted(profiles, home_id, home_key, q) {
        lemma_tamper_detection(p, q, profiles[p.a_id]@.public_key, home_key);
    }
}

/// A call whose proof had its relation type or one of its signatures
/// changed is refused as `InvalidProof` when the proof was valid for the
/// caller and both sides are stored.
pub proof fn lemma_tampered_call_refused(
    profiles: Map<Seq<u8>, Profile>,
    sessions: Map<Seq<u8>, u64>,
    n_channels: nat,
    caller: Seq<u8>,
    p: RelationProofView,
    q: RelationProofView,
)
    requires
        peer_of(p, caller) is Some,
        profiles.contains_key(caller),
        profiles.contains_key(peer_of(p, caller)->Some_0),
        proof_valid_for(
            p,
            caller,
            profiles[caller]@.public_key,
            profiles[peer_of(p, caller)->Some_0]@.public_key,
        ),
        one_field_changed(p, q),
        q.a_id == p.a_id,
        q.b_id == p.b_id,
        proof_fits(p),
        proof_fits(q),
    ensures
        call_outcome(profiles, sessions, n_channels, caller, q) == Err::<Option<ChannelId>, HomeError>(
            HomeError::InvalidProof,
        ),
{
    let kc = profiles[caller]@.public_key;
    let kp = profiles[peer_of(p, caller)->Some_0]@.public_key;
    if caller == p.a_id {
        if proof_valid(q, kc, kp) {
            lemma_tamper_detection(p, q, kc, kp);
        }
    } else {
        if proof_valid(q, kp, kc) {
            lemma_tamper_detection(p, q, kp, kc);
        }
    }
}

/// A second login of the same profile closes the first session: the first
/// session is live after the first login and not after the second, while
/// the second session is; a session that is not live is handed no events.
pub proof fn lemma_single_active_session(sessions: Map<Seq<u8>, u64>, next: u64, id: Seq<u8>)
    requires
        next < u64::MAX,
        next + 1 < u64::MAX,
    ensures
        ({
            let (s1, n1) = after_login(sessions, next, id);
            let (s2, n2) = after_login(s1, n1, id);
            let first = HomeSessionView { profile: id, token: next };
            let second = HomeSessionView { profile: id, token: n1 };
            &&& session_live(s1, first)
            &&& !session_live(s2, first)
            &&& session_live(s2, second)
            &&& forall|q: Seq<ProfileEvent>| #[trigger] deliverable(s2, first, q) == Seq::<ProfileEvent>::empty()
        }),
{
}

/// What a session receives of the queued items `pending`: all of them while
/// it is live, nothing once it is not.
pub open spec fn deliverable<T>(sessions: Map<Seq<u8>, u64>, s: HomeSessionView, pending: Seq<T>) -> Seq<T> {
    if session_live(sessions, s) {
        pending
    } else {
        Seq::empty()
    }
}

/// Outcome of a pairing request carrying `half` on a home storing `profiles`:
/// the target must be stored here, and the offer must verify under the
/// stored key of its signer.
pub open spec fn pair_request_outcome(profiles: Map<Seq<u8>, Profile>, half: RelationHalfProofView) -> Result<(), HomeError> {
    if !profiles.contains_key(half.peer_id) {
        Err(HomeError::PairingFailed)
    } else if !profiles.contains_key(half.signer_id) || !half_proof_valid(half, profiles[half.signer_id]@.public_key) {
        Err(HomeError::InvalidProof)
    } else {
        Ok(())
    }
}

/// Outcome of a pairing response carrying `proof`: the initiator, on side a,
/// must be stored here, and both signatures must verify under the stored keys.
pub open spec fn pair_response_outcome(profiles: Map<Seq<u8>, Profile>, proof: RelationProofView) -> Result<(), HomeError> {
    if !profiles.contains_key(proof.a_id) {
        Err(HomeError::PairingFailed)
    } else if !profiles.contains_key(proof.b_id) || !proof_valid(
        proof,
        profiles[proof.a_id]@.public_key,
        profiles[proof.b_id]@.public_key,
    ) {
        Err(HomeError::InvalidProof)
    } else {
        Ok(())
    }
}

/// Outcome of a call by `caller` under `proof`: the proof must name the
/// caller, both sides must be stored here and the proof must verify under
/// their keys; a callee without a live session declines, and so does a home
/// that has no channel id left; otherwise a new channel to the callee opens.
pub open spec fn call_outcome(
    profiles: Map<Seq<u8>, Profile>,
    sessions: Map<Seq<u8>, u64>,
    n_channels: nat,
    caller: Seq<u8>,
    proof: RelationProofView,
) -> Result<Option<ChannelId>, HomeError> {
    match peer_of(proof, caller) {
        None => Err(HomeError::InvalidProof),
        Some(callee) => if !profiles.contains_key(caller) || !profiles.contains_key(callee) {
            Err(HomeError::NotFound)
        } else if !proof_valid_for(proof, caller, profiles[caller]@.public_key, profiles[callee]@.public_key) {
            Err(HomeError::InvalidProof)
        } else if !sessions.contains_key(callee) || n_channels >= usize::MAX {
            Ok(None)
        } else {
            Ok(Some(ChannelId(n_channels as usize)))
        },
    }
}

pub struct IncomingCallView {
    pub caller: Seq<u8>,
    pub app: Seq<char>,
    pub init_payload: Seq<u8>,
    pub to_caller: Option<ChannelId>,
    pub from_caller: ChannelId,
}

impl View for IncomingCall {
    type V = IncomingCallView;

    open spec fn view(&self) -> IncomingCallView {
        IncomingCallView {
            caller: self.caller@,
            app: self.app@,
            init_payload: self.init_payload@,
            to_caller: self.to_caller,
            from_caller: self.from_caller,
        }
    }
}

pub open spec fn calls_view(v: Seq<IncomingCall>) -> Seq<IncomingCallView> {
    v.map_values(|c: IncomingCall| c@)
}

/// The calls of `v` addressed to application `app`, in order.
pub open spec fn calls_for(v: Seq<IncomingCall>, app: Seq<char>) -> Seq<IncomingCall>
    decreases v.len(),
{
    if v.len() == 0 {
        Seq::empty()
    } else if v[0].app@ == app {
        seq![v[0]] + calls_for(v.drop_first(), app)
    } else {
        calls_for(v.drop_first(), app)
    }
}

/// The calls of `v` addressed to other applications, in order.
pub open spec fn calls_not_for(v: Seq<IncomingCall>, app: Seq<char>) -> Seq<IncomingCall>
    decreases v.len(),
{
    if v.len() == 0 {
        Seq::empty()
    } else if v[0].app@ != app {
        seq![v[0]] + calls_not_for(v.drop_first(), app)
    } else {
        calls_not_for(v.drop_first(), app)
    }
}

/// Registering a profile whose facet is a home facet fails with
/// `RegistrationFailed`, whatever the offer and the home.
pub proof fn lemma_facet_rejection(
    registered: Set<Seq<u8>>,
    home_id: Seq<u8>,
    home_key: Seq<u8>,
    own: OwnProfileView,
    half: RelationHalfProofView,
)
    requires
        own.profile.facet is Home,
    ensures
        register_outcome(registered, home_id, home_key, own, half)
            == Err::<OwnProfileView, HomeError>(HomeError::RegistrationFailed),
{
}

/// A home hosting profiles, with its own signer.
pub struct MyDummyHome {
    home_profile: Profile,
    signer: Signo,
    storage_layer: ProfileStore,
    local_prof_store: IdMap<Vec<u8>>,
    sessions: IdMap<u64>,
    next_session: u64,
    events: IdMap<Vec<ProfileEvent>>,
    calls: IdMap<Vec<IncomingCall>>,
    successors: IdMap<Profile>,
    channels: ChannelTable,
}

impl MyDummyHome {
    pub closed spec fn wf(&self) -> bool {
        &&& self.storage_layer.wf()
        &&& self.local_prof_store.wf()
        &&& self.sessions.wf()
        &&& self.events.wf()
        &&& self.calls.wf()
        &&& self.successors.wf()
        &&& self.signer.spec_profile_id() == self.home_profile@.id
        &&& self.signer.spec_public_key() == self.home_profile@.public_key
        &&& forall|k: Seq<u8>| #[trigger] self.sessions.view().contains_key(k) ==> self.sessions.view()[k] < self.next_session
    }

    /// The public profile of the home itself.
    pub closed spec fn own_profile(&self) -> Profile {
        self.home_profile
    }

    pub open spec fn home_id(&self) -> Seq<u8> {
        self.own_profile()@.id
    }

    pub open spec fn home_key(&self) -> Seq<u8> {
        self.own_profile()@.public_key
    }

    pub fn home_profile(&self) -> (r: &Profile)
        ensures
            *r == self.own_profile(),
    {
        &self.home_profile
    }

    /// Public profiles stored by this home, by id.
    pub closed spec fn profiles(&self) -> Map<Seq<u8>, Profile> {
        self.storage_layer.view()
    }

    /// Private payloads of the profiles it hosts, by id.
    pub closed spec fn private_data(&self) -> Map<Seq<u8>, Vec<u8>> {
        self.local_prof_store.view()
    }

    /// Token of the live session of each profile that has one.
    pub closed spec fn sessions(&self) -> Map<Seq<u8>, u64> {
        self.sessions.view()
    }

    pub closed spec fn next_token(&self) -> u64 {
        self.next_session
    }

    /// Undelivered events of each profile that has some.
    pub closed spec fn event_queues(&self) -> Map<Seq<u8>, Vec<ProfileEvent>> {
        self.events.view()
    }

    /// Undelivered calls of each callee that has some.
    pub closed spec fn call_queues(&self) -> Map<Seq<u8>, Vec<IncomingCall>> {
        self.calls.view()
    }

    /// The successor home named by each profile that left this home.
    pub closed spec fn successors(&self) -> Map<Seq<u8>, Profile> {
        self.successors.view()
    }

    pub closed spec fn channels(&self) -> Seq<ChannelView> {
        self.channels@
    }

    /// The events waiting for profile `id`.
    pub open spec fn pending_events(&self, id: Seq<u8>) -> Seq<ProfileEvent> {
        if self.event_queues().contains_key(id) {
            self.event_queues()[id]@
        } else {
            Seq::empty()
        }
    }

    /// The calls waiting for callee `id`.
    pub open spec fn pending_calls(&self, id: Seq<u8>) -> Seq<IncomingCall> {
        if self.call_queues().contains_key(id) {
            self.call_queues()[id]@
        } else {
            Seq::empty()
        }
    }

    /// Everything but the stored profiles and private payloads is the same.
    pub open spec fn same_traffic(&self, other: &MyDummyHome) -> bool {
        &&& self.own_profile() == other.own_profile()
        &&& self.successors() == other.successors()
        &&& self.sessions() == other.sessions()
        &&& self.next_token() == other.next_token()
        &&& self.event_queues() == other.event_queues()
        &&& self.call_queues() == other.call_queues()
        &&& self.channels() == other.channels()
    }

    /// Everything but the sessions is the same.
    pub open spec fn same_content(&self, other: &MyDummyHome) -> bool {
        &&& self.own_profile() == other.own_profile()
        &&& self.successors() == other.successors()
        &&& self.profiles() == other.profiles()
        &&& self.private_data() == other.private_data()
        &&& self.event_queues() == other.event_queues()
        &&& self.call_queues() == other.call_queues()
        &&& self.channels() == other.channels()
    }

    /// Only the event queues differ.
    pub open spec fn same_except_events(&self, other: &MyDummyHome) -> bool {
        &&& self.own_profile() == other.own_profile()
        &&& self.successors() == other.successors()
        &&& self.profiles() == other.profiles()
        &&& self.private_data() == other.private_data()
        &&& self.sessions() == other.sessions()
        &&& self.next_token() == other.next_token()
        &&& self.call_queues() == other.call_queues()
        &&& self.channels() == other.channels()
    }

    /// The home, its stored profiles and its sessions are the same.
    pub open spec fn same_registry(&self, other: &MyDummyHome) -> bool {
        &&& self.own_profile() == other.own_profile()
        &&& self.successors() == other.successors()
        &&& self.profiles() == other.profiles()
        &&& self.private_data() == other.private_data()
        &&& self.sessions() == other.sessions()
        &&& self.next_token() == other.next_token()
    }

    /// Only the call queues and the channels differ.
    pub open spec fn same_except_calls(&self, other: &MyDummyHome) -> bool {
        &&& self.own_profile() == other.own_profile()
        &&& self.successors() == other.successors()
        &&& self.profiles() == other.profiles()
        &&& self.private_data() == other.private_data()
        &&& self.sessions() == other.sessions()
        &&& self.next_token() == other.next_token()
        &&& self.event_queues() == other.event_queues()
    }

    /// A home for `profile`, signing with `signer` and storing public
    /// profiles in `dht`; `None` when the signer is not the home's.
    pub fn new(profile: Profile, signer: Signo, dht: ProfileStore) -> (r: Option<MyDummyHome>)
        requires
            dht.wf(),
        ensures
            r is Some <==> signer.spec_profile_id() == profile@.id && signer.spec_public_key() == profile@.public_key,
            r matches Some(h) ==> {
                &&& h.wf()
                &&& h.own_profile() == profile
                &&& h.profiles() == dht.view()
                &&& h.private_data() == Map::<Seq<u8>, Vec<u8>>::empty()
                &&& h.sessions() == Map::<Seq<u8>, u64>::empty()
                &&& h.event_queues() == Map::<Seq<u8>, Vec<ProfileEvent>>::empty()
                &&& h.call_queues() == Map::<Seq<u8>, Vec<IncomingCall>>::empty()
                &&& h.channels() == Seq::<ChannelView>::empty()
                &&& h.successors() == Map::<Seq<u8>, Profile>::empty()
            },
    {
        if !(signer.prof_id().same_as(&profile.id)
            && crate::bytes::bytes_eq(signer.pub_key().0.as_slice(), profile.public_key.0.as_slice())) {
            return None;
        }
        Some(
            MyDummyHome {
                home_profile: profile,
                signer,
                storage_layer: dht,
                local_prof_store: IdMap::new(),
                sessions: IdMap::new(),
                next_session: 0,
                events: IdMap::new(),
                calls: IdMap::new(),
                successors: IdMap::new(),
                channels: ChannelTable::new(),
            },
        )
    }

    /// Stores a public profile, handing back the one it replaced.
    pub fn insert(&mut self, id: ProfileId, profile: Profile) -> (r: Option<Profile>)
        requires
            old(self).wf(),
        ensures
            final(self).wf(),
            final(self).profiles() == old(self).profiles().insert(id@, profile),
            final(self).private_data() == old(self).private_data(),
            final(self).same_traffic(old(self)),
            match r {
                Some(p) => old(self).profiles().contains_key(id@) && p == old(self).profiles()[id@],
                None => !old(self).profiles().contains_key(id@),
            },
    {
        self.storage_layer.insert(id, profile)
    }

    /// A copy of the stored profile `id`; `NotFound` when there is none.
    pub fn load(&self, id: &ProfileId) -> (r: Result<Profile, HomeError>)
        requires
            self.wf(),
        ensures
            r is Ok <==> self.profiles().contains_key(id@),
            r matches Ok(p) ==> p@ == self.profiles()[id@]@,
            r matches Err(e) ==> e == HomeError::NotFound,
    {
        self.storage_layer.load(id)
    }

    /// The successor home named by profile `id` when it left, if any.
    pub fn successor_of(&self, id: &ProfileId) -> (r: Option<Profile>)
        requires
            self.wf(),
        ensures
            r is Some <==> self.successors().contains_key(id@),
            r matches Some(p) ==> p@ == self.successors()[id@]@,
    {
        match self.successors.get(id) {
            Some(p) => Some(p.copy()),
            None => None,
        }
    }

    /// Copies of all stored public profiles, each once, in no particular order.
    pub fn list(&self) -> (r: Vec<Profile>)
        requires
            self.wf(),
        ensures
            r@.len() == self.profiles().dom().len(),
            forall|i: int| 0 <= i < r@.len() ==> self.stores(#[trigger] r@[i]@),
            forall|k: Seq<u8>| #[trigger] self.profiles().contains_key(k) ==> exists|i: int|
                0 <= i < r@.len() && r@[i]@ == self.profiles()[k]@,
    {
        let r = self.storage_layer.list();
        assert forall|i: int| 0 <= i < r@.len() implies self.stores(#[trigger] r@[i]@) by {
            assert(self.storage_layer.holds(r@[i]@));
            let k = choose|k: Seq<u8>|
                #[trigger] self.storage_layer.view().contains_key(k) && self.storage_layer.view()[k]@ == r@[i]@;
            assert(self.profiles().contains_key(k) && self.profiles()[k]@ == r@[i]@);
        }
        r
    }

    /// Some id holds a public profile with view `p`.
    pub open spec fn stores(&self, p: ProfileView) -> bool {
        exists|k: Seq<u8>| #[trigger] self.profiles().contains_key(k) && self.profiles()[k]@ == p
    }

    /// Resolves an external locator; this home knows none.
    pub fn resolve(&self, url: &str) -> (r: Result<Profile, HomeError>)
        requires
            self.wf(),
        ensures
            r == Err::<Profile, HomeError>(HomeError::ResolutionFailed),
    {
        self.storage_layer.resolve(url)
    }

    /// Recovers the own profile `id` from the stored public profile and the
    /// private payload, empty when none was kept; `NotFound` when the home
    /// holds no public profile for `id`.
    pub fn claim(&self, id: &ProfileId) -> (r: Result<OwnProfile, HomeError>)
        requires
            self.wf(),
        ensures
            r is Ok <==> self.profiles().contains_key(id@),
            r matches Ok(o) ==> o@ == (OwnProfileView {
                profile: self.profiles()[id@]@,
                private_data: if self.private_data().contains_key(id@) {
                    self.private_data()[id@]@
                } else {
                    Seq::empty()
                },
            }),
            r matches Err(e) ==> e == HomeError::NotFound,
    {
        match self.storage_layer.get(id) {
            None => Err(HomeError::NotFound),
            Some(profile) => match self.local_prof_store.get(id) {
                Some(private_data) => Ok(OwnProfile::new(profile, private_data.as_slice())),
                None => {
                    let empty: Vec<u8> = Vec::new();
                    Ok(OwnProfile::new(profile, empty.as_slice()))
                },
            },
        }
    }

    /// Enrolls a persona profile: countersigns its hosted-on-home offer,
    /// appends the proof to the persona's homes and stores the result. On
    /// failure the untouched profile comes back with the error: a home facet
    /// or an already registered profile gives `RegistrationFailed`, checked
    /// in that order; otherwise an offer that is not the profile's own signed
    /// offer to this home gives `InvalidProof`.
    pub fn register(
        &mut self,
        own_prof: OwnProfile,
        half_proof: &RelationHalfProof,
        invite: Option<HomeInvitation>,
    ) -> (r: Result<OwnProfile, (OwnProfile, HomeError)>)
        requires
            old(self).wf(),
        ensures
            final(self).wf(),
            match r {
                Ok(p) => {
                    &&& register_outcome(
                        old(self).profiles().dom(),
                        old(self).home_id(),
                        old(self).home_key(),
                        own_prof@,
                        half_proof@,
                    ) == Ok::<OwnProfileView, HomeError>(p@)
                    &&& final(self).profiles() == old(self).profiles().insert(
                        own_prof@.profile.id,
                        final(self).profiles()[own_prof@.profile.id],
                    )
                    &&& final(self).profiles()[own_prof@.profile.id]@ == p@.profile
                    &&& final(self).private_data() == old(self).private_data().insert(
                        own_prof@.profile.id,
                        final(self).private_data()[own_prof@.profile.id],
                    )
                    &&& final(self).private_data()[own_prof@.profile.id]@ == p@.private_data
                    &&& final(self).same_traffic(old(self))
                },
                Err((o, e)) => {
                    &&& register_outcome(
                        old(self).profiles().dom(),
                        old(self).home_id(),
                        old(self).home_key(),
                        own_prof@,
                        half_proof@,
                    ) == Err::<OwnProfileView, HomeError>(e)
                    &&& o == own_prof
                    &&& *final(self) == *old(self)
                },
            },
    {
        let (homes, data) = match &own_prof.profile.facet {
            ProfileFacet::Persona(persona) => (copy_proofs(&persona.homes), copy_bytes(persona.data.as_slice())),
            ProfileFacet::Home(_) => {
                return Err((own_prof, HomeError::RegistrationFailed));
            },
        };
        if self.storage_layer.contains(&own_prof.profile.id) {
            return Err((own_prof, HomeError::RegistrationFailed));
        }
        let hosted = relation_type_hosted_on_home();
        let offer_ok = half_proof.relation_type == hosted && half_proof.signer_id.same_as(&own_prof.profile.id)
            && half_proof.peer_id.same_as(&self.home_profile.id) && half_proof.verify(&own_prof.profile.public_key);
        if !offer_ok {
            return Err((own_prof, HomeError::InvalidProof));
        }
        let proof = match RelationProof::sign_remaining_half(half_proof, &self.signer) {
            Ok(p) => p,
            Err(e) => {
                return Err((own_prof, e));
            },
        };
        let mut homes = homes;
        let ghost before = homes@;
        let ghost pv = proof@;
        homes.push(proof);
        assert(proofs_view(homes@) =~= proofs_view(before).push(pv));
        let profile = Profile {
            id: own_prof.profile.id.copy(),
            public_key: own_prof.profile.public_key.copy(),
            facet: ProfileFacet::Persona(PersonaFacet { homes, data }),
        };
        let registered = OwnProfile::new(&profile, own_prof.private_data.as_slice());
        self.storage_layer.insert(own_prof.profile.id.copy(), profile);
        self.local_prof_store.insert(own_prof.profile.id.copy(), copy_bytes(own_prof.private_data.as_slice()));
        Ok(registered)
    }

    /// Opens a session for side a of a hosted-on-home proof. The new session
    /// replaces any earlier one of the same profile, which stops being live.
    pub fn login(&mut self, proof: &RelationProof) -> (r: Result<HomeSessionDummy, HomeError>)
        requires
            old(self).wf(),
        ensures
            final(self).wf(),
            r is Ok <==> login_accepted(old(self).profiles(), old(self).home_id(), old(self).home_key(), proof@)
                && old(self).next_token() < u64::MAX,
            r matches Ok(s) ==> {
                &&& s@ == (HomeSessionView { profile: proof@.a_id, token: old(self).next_token() })
                &&& (final(self).sessions(), final(self).next_token()) == after_login(
                    old(self).sessions(),
                    old(self).next_token(),
                    proof@.a_id,
                )
                &&& final(self).same_content(old(self))
            },
            r matches Err(e) ==> e == HomeError::LoginFailed && *final(self) == *old(self),
    {
        let hosted = relation_type_hosted_on_home();
        if !(proof.relation_type == hosted) || !proof.b_id.same_as(&self.home_profile.id) {
            return Err(HomeError::LoginFailed);
        }
        let accepted = match self.storage_layer.get(&proof.a_id) {
            None => false,
            Some(client) => proof.verify(&client.public_key, &self.home_profile.public_key),
        };
        if !accepted || self.next_session == u64::MAX {
            return Err(HomeError::LoginFailed);
        }
        let token = self.next_session;
        self.sessions.insert(proof.a_id.copy(), token);
        self.next_session = token + 1;
        Ok(HomeSessionDummy { profile_id: proof.a_id.copy(), token })
    }

    /// Whether `session` is the live session of its profile.
    pub fn is_live(&self, session: &HomeSessionDummy) -> (r: bool)
        requires
            self.wf(),
        ensures
            r == session_live(self.sessions(), session@),
    {
        match self.sessions.get(&session.profile_id) {
            Some(t) => *t == session.token,
            None => false,
        }
    }

    fn push_event(&mut self, id: &ProfileId, event: ProfileEvent)
        requires
            old(self).wf(),
        ensures
            final(self).wf(),
            final(self).pending_events(id@) == old(self).pending_events(id@).push(event),
            final(self).event_queues() == old(self).event_queues().insert(id@, final(self).event_queues()[id@]),
            final(self).same_except_events(old(self)),
    {
        let mut queue = match self.events.remove(id) {
            Some(q) => q,
            None => Vec::new(),
        };
        queue.push(event);
        self.events.insert(id.copy(), queue);
        assert(self.event_queues() =~= old(self).event_queues().insert(id@, self.event_queues()[id@]));
    }

    /// Queues a relation offer for its target, which this home must store;
    /// the offer must verify under the stored key of its signer.
    pub fn pair_request(&mut self, half_proof: &RelationHalfProof) -> (r: Result<(), HomeError>)
        requires
            old(self).wf(),
        ensures
            final(self).wf(),
            r == pair_request_outcome(old(self).profiles(), half_proof@),
            r is Ok ==> {
                &&& events_view(final(self).pending_events(half_proof@.peer_id)) == events_view(
                    old(self).pending_events(half_proof@.peer_id),
                ).push(ProfileEventView::PairingRequest(half_proof@))
                &&& final(self).event_queues() == old(self).event_queues().insert(
                    half_proof@.peer_id,
                    final(self).event_queues()[half_proof@.peer_id],
                )
                &&& final(self).same_except_events(old(self))
            },
            r is Err ==> *final(self) == *old(self),
    {
        if !self.storage_layer.contains(&half_proof.peer_id) {
            return Err(HomeError::PairingFailed);
        }
        let valid = match self.storage_layer.get(&half_proof.signer_id) {
            None => false,
            Some(signer) => half_proof.verify(&signer.public_key),
        };
        if !valid {
            return Err(HomeError::InvalidProof);
        }
        let event = ProfileEvent::PairingRequest(half_proof.copy());
        let ghost ev = event;
        self.push_event(&half_proof.peer_id, event);
        assert(events_view(self.pending_events(half_proof@.peer_id)) =~= events_view(
            old(self).pending_events(half_proof@.peer_id),
        ).push(ev@));
        Ok(())
    }

    /// Queues a countersigned proof for its initiator, on side a, which this
    /// home must store; both signatures must verify under the stored keys.
    pub fn pair_response(&mut self, proof: &RelationProof) -> (r: Result<(), HomeError>)
        requires
            old(self).wf(),
        ensures
            final(self).wf(),
            r == pair_response_outcome(old(self).profiles(), proof@),
            r is Ok ==> {
                &&& events_view(final(self).pending_events(proof@.a_id)) == events_view(
                    old(self).pending_events(proof@.a_id),
                ).push(ProfileEventView::PairingResponse(proof@))
                &&& final(self).event_queues() == old(self).event_queues().insert(
                    proof@.a_id,
                    final(self).event_queues()[proof@.a_id],
                )
                &&& final(self).same_except_events(old(self))
            },
            r is Err ==> *final(self) == *old(self),
    {
        let a_key = match self.storage_layer.get(&proof.a_id) {
            None => {
                return Err(HomeError::PairingFailed);
            },
            Some(a) => a.public_key.copy(),
        };
        let valid = match self.storage_layer.get(&proof.b_id) {
            None => false,
            Some(b) => proof.verify(&a_key, &b.public_key),
        };
        if !valid {
            return Err(HomeError::InvalidProof);
        }
        let event = ProfileEvent::PairingResponse(proof.copy());
        let ghost ev = event;
        self.push_event(&proof.a_id, event);
        assert(events_view(self.pending_events(proof@.a_id)) =~= events_view(old(self).pending_events(proof@.a_id)).push(
            ev@,
        ));
        Ok(())
    }

    /// Mediates a call of `caller` to the other side of `proof` for `app`.
    /// On acceptance a channel from caller to callee opens, the call is
    /// queued for the callee with `init_payload` and `to_caller`, and the
    /// caller gets the new channel to write on.
    pub fn call(
        &mut self,
        caller: &ProfileId,
        proof: &RelationProof,
        app: &ApplicationId,
        init_payload: AppMessageFrame,
        to_caller: Option<ChannelId>,
    ) -> (r: Result<Option<ChannelId>, HomeError>)
        requires
            old(self).wf(),
        ensures
            final(self).wf(),
            r == call_outcome(
                old(self).profiles(),
                old(self).sessions(),
                old(self).channels().len(),
                caller@,
                proof@,
            ),
            r matches Ok(Some(fwd)) ==> {
                let callee = peer_of(proof@, caller@)->Some_0;
                &&& final(self).channels() == old(self).channels().push(
                    ChannelView { messages: Seq::empty(), capacity: CHANNEL_CAPACITY as nat, closed: false },
                )
                &&& calls_view(final(self).pending_calls(callee)) == calls_view(old(self).pending_calls(callee)).push(
                    IncomingCallView {
                        caller: caller@,
                        app: app@,
                        init_payload: init_payload@,
                        to_caller: to_caller,
                        from_caller: fwd,
                    },
                )
                &&& final(self).call_queues() == old(self).call_queues().insert(
                    callee,
                    final(self).call_queues()[callee],
                )
                &&& events_view(final(self).pending_events(callee)) == events_view(old(self).pending_events(callee)).push(
                    ProfileEventView::IncomingCall(app@),
                )
                &&& final(self).event_queues() == old(self).event_queues().insert(
                    callee,
                    final(self).event_queues()[callee],
                )
                &&& final(self).same_registry(old(self))
            },
            !(r matches Ok(Some(_))) ==> *final(self) == *old(self),
    {
        let callee = match proof.peer_id(caller) {
            Ok(id) => id,
            Err(e) => {
                return Err(e);
            },
        };
        let caller_key = match self.storage_layer.get(caller) {
            None => {
                return Err(HomeError::NotFound);
            },
            Some(p) => p.public_key.copy(),
        };
        let callee_key = match self.storage_layer.get(&callee) {
            None => {
                return Err(HomeError::NotFound);
            },
            Some(p) => p.public_key.copy(),
        };
        if !proof.verify_for(caller, &caller_key, &callee_key) {
            return Err(HomeError::InvalidProof);
        }
        if !self.sessions.contains(&callee) || self.channels.len() == usize::MAX {
            return Ok(None);
        }
        let fwd = match self.channels.open(CHANNEL_CAPACITY) {
            None => {
                return Ok(None);
            },
            Some(id) => id,
        };
        let incoming = IncomingCall { caller: caller.copy(), app: app.copy(), init_payload, to_caller, from_caller: fwd };
        let ghost call_value = incoming;
        let mut queue = match self.calls.remove(&callee) {
            Some(q) => q,
            None => Vec::new(),
        };
        queue.push(incoming);
        self.calls.insert(callee.copy(), queue);
        assert(self.call_queues() =~= old(self).call_queues().insert(callee@, self.call_queues()[callee@]));
        assert(calls_view(self.pending_calls(callee@)) =~= calls_view(old(self).pending_calls(callee@)).push(
            call_value@,
        ));
        let event = ProfileEvent::IncomingCall(app.copy());
        let ghost ev = event;
        self.push_event(&callee, event);
        assert(events_view(self.pending_events(callee@)) =~= events_view(old(self).pending_events(callee@)).push(ev@));
        Ok(Some(fwd))
    }

    /// Number of channels opened so far.
    pub fn channel_count(&self) -> (r: usize)
        ensures
            r == self.channels().len(),
    {
        self.channels.len()
    }

    /// Opens a channel, as a caller does for the callee's answers.
    pub fn open_channel(&mut self, capacity: usize) -> (r: Option<ChannelId>)
        requires
            old(self).wf(),
        ensures
            final(self).wf(),
            r is Some <==> old(self).channels().len() < usize::MAX,
            r matches Some(id) ==> id.0 == old(self).channels().len() && final(self).channels() == old(self).channels().push(
                ChannelView { messages: Seq::empty(), capacity: capacity as nat, closed: false },
            ),
            r is None ==> final(self).channels() == old(self).channels(),
            final(self).same_except_calls(old(self)),
            final(self).call_queues() == old(self).call_queues(),
    {
        self.channels.open(capacity)
    }

    /// Sends on a mediated channel; the message comes back when the channel
    /// is full, closed or unknown.
    pub fn send(&mut self, id: ChannelId, msg: AppMessageFrame) -> (r: Result<(), AppMessageFrame>)
        requires
            old(self).wf(),
        ensures
            final(self).wf(),
            id.0 < old(self).channels().len() ==> (final(self).channels()[id.0 as int], r is Ok) == crate::channel::send_step(
                old(self).channels()[id.0 as int],
                msg@,
            ) && final(self).channels() == old(self).channels().update(
                id.0 as int,
                final(self).channels()[id.0 as int],
            ),
            id.0 >= old(self).channels().len() ==> r is Err && final(self).channels() == old(self).channels(),
            r matches Err(m) ==> m == msg,
            final(self).same_except_calls(old(self)),
            final(self).call_queues() == old(self).call_queues(),
    {
        self.channels.send(id, msg)
    }

    /// Receives from a mediated channel.
    pub fn recv(&mut self, id: ChannelId) -> (r: Option<AppMessageFrame>)
        requires
            old(self).wf(),
        ensures
            final(self).wf(),
            id.0 < old(self).channels().len() ==> (
                final(self).channels()[id.0 as int],
                crate::channel::opt_frame_view(r),
            ) == crate::channel::recv_step(old(self).channels()[id.0 as int]) && final(self).channels()
                == old(self).channels().update(id.0 as int, final(self).channels()[id.0 as int]),
            id.0 >= old(self).channels().len() ==> r is None && final(self).channels() == old(self).channels(),
            final(self).same_except_calls(old(self)),
            final(self).call_queues() == old(self).call_queues(),
    {
        self.channels.recv(id)
    }

    /// Closes a mediated channel to further sends.
    pub fn close_channel(&mut self, id: ChannelId)
        requires
            old(self).wf(),
        ensures
            final(self).wf(),
            id.0 < old(self).channels().len() ==> final(self).channels() == old(self).channels().update(
                id.0 as int,
                ChannelView { closed: true, ..old(self).channels()[id.0 as int] },
            ),
            id.0 >= old(self).channels().len() ==> final(self).channels() == old(self).channels(),
            final(self).same_except_calls(old(self)),
            final(self).call_queues() == old(self).call_queues(),
    {
        self.channels.close(id)
    }
}


impl HomeSessionDummy {
    /// Pushes a changed own profile to the home, which replaces what it
    /// stored for the profile. Fails with `LoginFailed` when the session is
    /// no longer live and with `InvalidProof` for another profile's record.
    pub fn update(&self, home: &mut MyDummyHome, own_prof: &OwnProfile) -> (r: Result<(), HomeError>)
        requires
            old(home).wf(),
        ensures
            final(home).wf(),
            r is Ok <==> session_live(old(home).sessions(), self@) && own_prof@.profile.id == self@.profile,
            !session_live(old(home).sessions(), self@) ==> r == Err::<(), HomeError>(HomeError::LoginFailed),
            session_live(old(home).sessions(), self@) && own_prof@.profile.id != self@.profile ==> r == Err::<
                (),
                HomeError,
            >(HomeError::InvalidProof),
            r is Ok ==> {
                &&& final(home).profiles() == old(home).profiles().insert(
                    self@.profile,
                    final(home).profiles()[self@.profile],
                )
                &&& final(home).profiles()[self@.profile]@ == own_prof@.profile
                &&& final(home).private_data() == old(home).private_data().insert(
                    self@.profile,
                    final(home).private_data()[self@.profile],
                )
                &&& final(home).private_data()[self@.profile]@ == own_prof@.private_data
                &&& final(home).same_traffic(old(home))
            },
            r is Err ==> *final(home) == *old(home),
    {
        if !home.is_live(self) {
            return Err(HomeError::LoginFailed);
        }
        if !own_prof.profile.id.same_as(&self.profile_id) {
            return Err(HomeError::InvalidProof);
        }
        home.storage_layer.insert(self.profile_id.copy(), own_prof.profile.copy());
        home.local_prof_store.insert(self.profile_id.copy(), copy_bytes(own_prof.private_data.as_slice()));
        Ok(())
    }

    /// Leaves the home: the profile, its private payload, its queues and its
    /// session are dropped, and the successor home, if named, is recorded so
    /// that peers can be redirected. Fails with `LoginFailed` when the
    /// session is no longer live.
    pub fn unregister(&self, home: &mut MyDummyHome, newhome: Option<Profile>) -> (r: Result<(), HomeError>)
        requires
            old(home).wf(),
        ensures
            final(home).wf(),
            r is Ok <==> session_live(old(home).sessions(), self@),
            r is Ok ==> {
                &&& final(home).profiles() == old(home).profiles().remove(self@.profile)
                &&& final(home).private_data() == old(home).private_data().remove(self@.profile)
                &&& final(home).sessions() == old(home).sessions().remove(self@.profile)
                &&& final(home).event_queues() == old(home).event_queues().remove(self@.profile)
                &&& final(home).call_queues() == old(home).call_queues().remove(self@.profile)
                &&& final(home).next_token() == old(home).next_token()
                &&& final(home).channels() == old(home).channels()
                &&& final(home).own_profile() == old(home).own_profile()
                &&& final(home).successors() == match newhome {
                    Some(h) => old(home).successors().insert(self@.profile, h),
                    None => old(home).successors(),
                }
            },
            r matches Err(e) ==> e == HomeError::LoginFailed && *final(home) == *old(home),
    {
        if !home.is_live(self) {
            return Err(HomeError::LoginFailed);
        }
        home.storage_layer.remove(&self.profile_id);
        home.local_prof_store.remove(&self.profile_id);
        home.sessions.remove(&self.profile_id);
        home.events.remove(&self.profile_id);
        home.calls.remove(&self.profile_id);
        match newhome {
            Some(h) => {
                home.successors.insert(self.profile_id.copy(), h);
            },
            None => {},
        }
        proof {
            assert forall|k: Seq<u8>| #[trigger] home.sessions.view().contains_key(k) implies home.sessions.view()[k]
                < home.next_session by {
                assert(old(home).sessions.view().contains_key(k));
            }
        }
        Ok(())
    }

    /// Takes the events queued for this session's profile, in the order the
    /// home queued them; a session that is no longer live gets none.
    pub fn events(&self, home: &mut MyDummyHome) -> (r: Vec<ProfileEvent>)
        requires
            old(home).wf(),
        ensures
            final(home).wf(),
            r@ == deliverable(old(home).sessions(), self@, old(home).pending_events(self@.profile)),
            session_live(old(home).sessions(), self@) ==> final(home).event_queues() == old(
                home,
            ).event_queues().remove(self@.profile) && final(home).same_except_events(old(home)),
            !session_live(old(home).sessions(), self@) ==> *final(home) == *old(home),
    {
        if !home.is_live(self) {
            return Vec::new();
        }
        match home.events.remove(&self.profile_id) {
            Some(q) => q,
            None => {
                assert(old(home).pending_events(self@.profile) =~= Seq::<ProfileEvent>::empty());
                Vec::new()
            },
        }
    }

    /// Takes the calls queued for this session's profile and application
    /// `app`, in order, leaving those for other applications; a session that
    /// is no longer live gets none.
    pub fn checkin_app(&self, home: &mut MyDummyHome, app: &ApplicationId) -> (r: Vec<IncomingCall>)
        requires
            old(home).wf(),
        ensures
            final(home).wf(),
            r@ == deliverable(old(home).sessions(), self@, calls_for(old(home).pending_calls(self@.profile), app@)),
            session_live(old(home).sessions(), self@) ==> {
                &&& final(home).pending_calls(self@.profile) == calls_not_for(
                    old(home).pending_calls(self@.profile),
                    app@,
                )
                &&& final(home).call_queues() == old(home).call_queues().insert(
                    self@.profile,
                    final(home).call_queues()[self@.profile],
                )
                &&& final(home).same_except_calls(old(home))
                &&& final(home).channels() == old(home).channels()
            },
            !session_live(old(home).sessions(), self@) ==> *final(home) == *old(home),
    {
        if !home.is_live(self) {
            return Vec::new();
        }
        let mut rest = match home.calls.remove(&self.profile_id) {
            Some(q) => q,
            None => Vec::new(),
        };
        let ghost all = rest@;
        assert(all == old(home).pending_calls(self@.profile));
        let mut taken: Vec<IncomingCall> = Vec::new();
        let mut kept: Vec<IncomingCall> = Vec::new();
        while rest.len() > 0
            invariant
                taken@ + calls_for(rest@, app@) == calls_for(all, app@),
                kept@ + calls_not_for(rest@, app@) == calls_not_for(all, app@),
            decreases rest@.len(),
        {
            let ghost before = rest@;
            let c = rest.remove(0);
            assert(rest@ == before.drop_first());
            if c.app.0 == app.0 {
                assert(calls_for(before, app@) == seq![c] + calls_for(rest@, app@));
                assert(taken@.push(c) + calls_for(rest@, app@) =~= taken@ + calls_for(before, app@));
                assert(calls_not_for(before, app@) == calls_not_for(rest@, app@));
                taken.push(c);
            } else {
                assert(calls_not_for(before, app@) == seq![c] + calls_not_for(rest@, app@));
                assert(kept@.push(c) + calls_not_for(rest@, app@) =~= kept@ + calls_not_for(before, app@));
                assert(calls_for(before, app@) == calls_for(rest@, app@));
                kept.push(c);
            }
        }
        assert(taken@ =~= taken@ + calls_for(rest@, app@));
        assert(kept@ =~= kept@ + calls_not_for(rest@, app@));
        home.calls.insert(self.profile_id.copy(), kept);
        assert(home.call_queues() =~= old(home).call_queues().insert(self@.profile, home.call_queues()[self@.profile]));
        taken
    }

    /// Liveness probe: echoes `txt`.
    pub fn ping(&self, txt: &str) -> (r: String)
        ensures
            r@ == txt@,
    {
        txt.to_owned()
    }
}

} // verus!
