//! The connector that hands out the live home, and the gateway that
//! registers, logs in and calls on behalf of one local profile.
use vstd::prelude::*;
use crate::channel::{ChannelId, ChannelView, CHANNEL_CAPACITY};
use crate::home::{
    after_login, call_outcome, calls_view, events_view, login_accepted, register_outcome, session_live,
    HomeInvitation, HomeSessionDummy, HomeSessionView, IncomingCallView, MyDummyHome, ProfileEventView,
};
use crate::identity::{
    hosted_on_home_type, peer_of, relation_type_hosted_on_home, signable_part, signature_of, AppMessageFrame,
    ApplicationId, FacetView, HomeError, OwnProfile, OwnProfileView, Profile, ProfileFacet, ProfileId, ProfileView,
    RelationHalfProof, RelationHalfProofView, RelationProof, RelationProofView,
};
use crate::signer::Signo;

verus! {

/// A home profile can be connected to by a connector whose home has id
/// `home_id`: it is that home's profile, with a home facet naming at least
/// one address.
pub open spec fn connectable(p: ProfileView, home_id: Seq<u8>) -> bool {
    &&& p.id == home_id
    &&& p.facet is Home
    &&& p.facet->Home_addrs.len() > 0
}

/// Hands out the live connection to the one home it was made with; every
/// connection to that home is the same shared one.
pub struct DummyConnector {
    pub home: MyDummyHome,
}

impl DummyConnector {
    pub fn new_with_home(home: MyDummyHome) -> (r: DummyConnector)
        ensures
            r.home == home,
    {
        DummyConnector { home }
    }

    /// Connects to the home described by `home_profile`; `ConnectionFailed`
    /// when it is not this connector's home or names no address.
    pub fn connect(&self, home_profile: &Profile) -> (r: Result<(), HomeError>)
        ensures
            r is Ok <==> connectable(home_profile@, self.home.home_id()),
            r matches Err(e) ==> e == HomeError::ConnectionFailed,
    {
        let reachable = match &home_profile.facet {
            ProfileFacet::Home(facet) => facet.addrs.len() > 0,
            ProfileFacet::Persona(_) => false,
        };
        if reachable && home_profile.id.same_as(&self.home.home_profile().id) {
            Ok(())
        } else {
            Err(HomeError::ConnectionFailed)
        }
    }
}

/// The first hosted-on-home proof of `homes`.
pub open spec fn first_hosted(homes: Seq<RelationProofView>) -> Option<RelationProofView>
    decreases homes.len(),
{
    if homes.len() == 0 {
        None
    } else if homes[0].relation_type == hosted_on_home_type() {
        Some(homes[0])
    } else {
        first_hosted(homes.drop_first())
    }
}

/// The first hosted-on-home proof of a profile's persona facet.
pub open spec fn facet_login_proof(p: ProfileView) -> Option<RelationProofView> {
    match p.facet {
        FacetView::Persona { homes, .. } => first_hosted(homes),
        FacetView::Home { .. } => None,
    }
}

/// The first hosted-on-home proof of the profile that `profiles` stores
/// under `me`.
pub open spec fn login_proof(profiles: Map<Seq<u8>, Profile>, me: Seq<u8>) -> Option<RelationProofView> {
    if profiles.contains_key(me) {
        facet_login_proof(profiles[me]@)
    } else {
        None
    }
}

/// The proof a gateway logs in with: the first hosted-on-home proof of its
/// local own profile.
pub open spec fn local_login_proof(local: Option<OwnProfileView>) -> Option<RelationProofView> {
    match local {
        Some(own) => facet_login_proof(own.profile),
        None => None,
    }
}

/// Why connecting to `home_id` fails: `NotFound` when no such profile is
/// stored, `ConnectionFailed` otherwise.
pub open spec fn connect_error(home: MyDummyHome, home_id: Seq<u8>) -> HomeError {
    if home.profiles().contains_key(home_id) {
        HomeError::ConnectionFailed
    } else {
        HomeError::NotFound
    }
}

/// The home a connection to `home_id` reaches: it is stored and connectable.
pub open spec fn home_reachable(home: MyDummyHome, home_id: Seq<u8>) -> bool {
    home.profiles().contains_key(home_id) && connectable(home.profiles()[home_id]@, home.home_id())
}

/// The offer a signer makes to be hosted on `home_id`.
pub open spec fn hosting_offer(signer_id: Seq<u8>, signer_key: Seq<u8>, home_id: Seq<u8>) -> RelationHalfProofView {
    RelationHalfProofView {
        relation_type: hosted_on_home_type(),
        signer_id,
        peer_id: home_id,
        signature: signature_of(signable_part(hosted_on_home_type(), signer_id, home_id), signer_key),
    }
}

/// A gateway with cached session `cached` and local own profile `local`,
/// acting for `me`, can log in to `home`: the cached session is live, or the
/// first hosted-on-home proof of the local profile, with `me` on side a,
/// names a reachable home that accepts it.
pub open spec fn login_possible(
    cached: Option<HomeSessionView>,
    me: Seq<u8>,
    local: Option<OwnProfileView>,
    home: MyDummyHome,
) -> bool {
    let proof = local_login_proof(local);
    ||| (cached matches Some(s) && session_live(home.sessions(), s))
    ||| (proof is Some && proof->Some_0.a_id == me && home_reachable(home, proof->Some_0.b_id) && login_accepted(
        home.profiles(),
        home.home_id(),
        home.home_key(),
        proof->Some_0,
    ) && home.next_token() < u64::MAX)
}

/// The error of a login that is not possible: `LoginFailed` without a
/// usable proof or when the home refuses it, the connection error when its
/// home cannot be reached.
pub open spec fn login_error(me: Seq<u8>, local: Option<OwnProfileView>, home: MyDummyHome) -> HomeError {
    let proof = local_login_proof(local);
    if proof is Some && proof->Some_0.a_id == me && !home_reachable(home, proof->Some_0.b_id) {
        connect_error(home, proof->Some_0.b_id)
    } else {
        HomeError::LoginFailed
    }
}

/// What a gateway's call by `me` under `proof` gives on `home` when the
/// home then holds `n_channels` channels: `InvalidProof` when the proof does
/// not name `me`, a connection error when the callee's home cannot be
/// reached, and the home's own outcome otherwise.
pub open spec fn gateway_call_result(
    home: MyDummyHome,
    n_channels: nat,
    me: Seq<u8>,
    proof: RelationProofView,
) -> Result<Option<ChannelId>, HomeError> {
    if peer_of(proof, me) is None {
        Err(HomeError::InvalidProof)
    } else if callee_home(home.profiles(), me, proof) is None {
        Err(HomeError::ConnectionFailed)
    } else if !home_reachable(home, callee_home(home.profiles(), me, proof)->Some_0) {
        Err(connect_error(home, callee_home(home.profiles(), me, proof)->Some_0))
    } else {
        call_outcome(home.profiles(), home.sessions(), n_channels, me, proof)
    }
}

/// The home that hosts the other side of `proof`, as its first
/// hosted-on-home proof names it.
pub open spec fn callee_home(profiles: Map<Seq<u8>, Profile>, me: Seq<u8>, proof: RelationProofView) -> Option<Seq<u8>> {
    match peer_of(proof, me) {
        None => None,
        Some(callee) => match login_proof(profiles, callee) {
            None => None,
            Some(hp) => peer_of(hp, callee),
        },
    }
}

/// Acts for one local profile: its signer, its own profile as known
/// locally, and its cached home session.
pub struct ProfileGateway {
    signer: Signo,
    own_profile: Option<OwnProfile>,
    session: Option<HomeSessionDummy>,
}

impl ProfileGateway {
    pub closed spec fn signer_id(&self) -> Seq<u8> {
        self.signer.spec_profile_id()
    }

    pub closed spec fn signer_key(&self) -> Seq<u8> {
        self.signer.spec_public_key()
    }

    /// The cached session, if any.
    pub closed spec fn cached_session(&self) -> Option<HomeSessionView> {
        match self.session {
            Some(s) => Some(s@),
            None => None,
        }
    }

    /// The local own profile, if one is known.
    pub closed spec fn local_profile(&self) -> Option<OwnProfileView> {
        match self.own_profile {
            Some(o) => Some(o@),
            None => None,
        }
    }

    /// A cached session belongs to this gateway's profile.
    pub closed spec fn wf(&self) -> bool {
        self.session matches Some(s) ==> s@.profile == self.signer.spec_profile_id()
    }

    pub fn new(signer: Signo) -> (r: ProfileGateway)
        ensures
            r.wf(),
            r.signer_id() == signer.spec_profile_id(),
            r.signer_key() == signer.spec_public_key(),
            r.cached_session() is None,
            r.local_profile() is None,
    {
        ProfileGateway { signer, own_profile: None, session: None }
    }

    /// Sets the local own profile.
    pub fn set_own_profile(&mut self, own: OwnProfile)
        requires
            old(self).wf(),
        ensures
            final(self).wf(),
            final(self).local_profile() == Some(own@),
            final(self).signer_id() == old(self).signer_id(),
            final(self).signer_key() == old(self).signer_key(),
            final(self).cached_session() == old(self).cached_session(),
    {
        self.own_profile = Some(own);
    }

    pub fn signer(&self) -> (r: &Signo)
        ensures
            r.spec_profile_id() == self.signer_id(),
            r.spec_public_key() == self.signer_key(),
    {
        &self.signer
    }

    /// Resolves `home_id` through the home's profile store and connects to
    /// it: `NotFound` when no such profile is stored, `ConnectionFailed` when
    /// it cannot be connected to.
    pub fn connect_home(&self, connector: &DummyConnector, home_id: &ProfileId) -> (r: Result<(), HomeError>)
        requires
            connector.home.wf(),
        ensures
            r is Ok <==> home_reachable(connector.home, home_id@),
            r matches Err(e) ==> (if connector.home.profiles().contains_key(home_id@) {
                e == HomeError::ConnectionFailed
            } else {
                e == HomeError::NotFound
            }),
    {
        let profile = match connector.home.load(home_id) {
            Ok(p) => p,
            Err(e) => {
                return Err(e);
            },
        };
        connector.connect(&profile)
    }

    /// Connects to `home_id` and registers `own_profile` there with this
    /// profile's signed hosting offer; the registered profile becomes the
    /// local own profile. On failure the untouched profile comes back with
    /// the error.
    pub fn register(
        &mut self,
        connector: &mut DummyConnector,
        home_id: &ProfileId,
        own_profile: OwnProfile,
        invite: Option<HomeInvitation>,
    ) -> (r: Result<OwnProfile, (OwnProfile, HomeError)>)
        requires
            old(connector).home.wf(),
            old(self).wf(),
        ensures
            final(connector).home.wf(),
            final(self).wf(),
            final(self).signer_id() == old(self).signer_id(),
            final(self).signer_key() == old(self).signer_key(),
            final(self).cached_session() == old(self).cached_session(),
            !home_reachable(old(connector).home, home_id@) ==> *final(connector) == *old(connector) && (r matches Err((
                o,
                e,
            )) && e == connect_error(old(connector).home, home_id@)),
            home_reachable(old(connector).home, home_id@) ==> match r {
                Ok(p) => {
                    let id = own_profile@.profile.id;
                    let home = old(connector).home;
                    &&& register_outcome(
                        home.profiles().dom(),
                        home.home_id(),
                        home.home_key(),
                        own_profile@,
                        hosting_offer(old(self).signer_id(), old(self).signer_key(), home_id@),
                    ) == Ok::<OwnProfileView, HomeError>(p@)
                    &&& final(connector).home.profiles() == home.profiles().insert(id, final(connector).home.profiles()[id])
                    &&& final(connector).home.profiles()[id]@ == p@.profile
                    &&& final(connector).home.private_data() == home.private_data().insert(
                        id,
                        final(connector).home.private_data()[id],
                    )
                    &&& final(connector).home.private_data()[id]@ == p@.private_data
                    &&& final(connector).home.same_traffic(&home)
                },
                Err((o, e)) => register_outcome(
                    old(connector).home.profiles().dom(),
                    old(connector).home.home_id(),
                    old(connector).home.home_key(),
                    own_profile@,
                    hosting_offer(old(self).signer_id(), old(self).signer_key(), home_id@),
                ) == Err::<OwnProfileView, HomeError>(e) && *final(connector) == *old(connector),
            },
            r matches Ok(p) ==> final(self).local_profile() == Some(p@),
            r is Err ==> final(self).local_profile() == old(self).local_profile(),
            r matches Err((o, e)) ==> o == own_profile,
    {
        match self.connect_home(connector, home_id) {
            Err(e) => {
                return Err((own_profile, e));
            },
            Ok(()) => {},
        }
        let hosted = relation_type_hosted_on_home();
        let half = RelationHalfProof::new(hosted.as_str(), home_id, &self.signer);
        match connector.home.register(own_profile, &half, invite) {
            Ok(registered) => {
                self.own_profile = Some(registered.copy());
                Ok(registered)
            },
            Err(failed) => Err(failed),
        }
    }

    /// Finds the first hosted-on-home proof of a profile's persona facet.
    fn find_hosted_proof(profile: &Profile) -> (r: Option<RelationProof>)
        ensures
            match r {
                Some(p) => facet_login_proof(profile@) == Some(p@),
                None => facet_login_proof(profile@) is None,
            },
    {
        let homes = match &profile.facet {
            ProfileFacet::Persona(persona) => &persona.homes,
            ProfileFacet::Home(_) => {
                return None;
            },
        };
        let ghost hv = crate::identity::proofs_view(homes@);
        assert(facet_login_proof(profile@) == first_hosted(hv));
        assert(hv.subrange(0, hv.len() as int) =~= hv);
        let hosted = relation_type_hosted_on_home();
        let mut i: usize = 0;
        while i < homes.len()
            invariant
                0 <= i <= homes@.len(),
                hv == crate::identity::proofs_view(homes@),
                hosted@ == hosted_on_home_type(),
                facet_login_proof(profile@) == first_hosted(hv),
                first_hosted(hv) == first_hosted(hv.subrange(i as int, hv.len() as int)),
            decreases homes@.len() - i,
        {
            let ghost tail = hv.subrange(i as int, hv.len() as int);
            assert(tail.drop_first() =~= hv.subrange(i + 1, hv.len() as int));
            if homes[i].relation_type == hosted {
                assert(tail[0] == homes@[i as int]@);
                assert(tail.len() > 0 && tail[0].relation_type == hosted_on_home_type());
                assert(first_hosted(tail) == Some(tail[0]));
                return Some(homes[i].copy());
            }
            i = i + 1;
        }
        assert(hv.subrange(i as int, hv.len() as int) =~= Seq::<RelationProofView>::empty());
        None
    }

    /// Finds the first hosted-on-home proof in the stored profile of `me`.
    fn find_login_proof(home: &MyDummyHome, me: &ProfileId) -> (r: Option<RelationProof>)
        requires
            home.wf(),
        ensures
            match r {
                Some(p) => login_proof(home.profiles(), me@) == Some(p@),
                None => login_proof(home.profiles(), me@) is None,
            },
    {
        match home.load(me) {
            Ok(own) => Self::find_hosted_proof(&own),
            Err(_) => None,
        }
    }

    /// A live cached session is handed back as it is. Otherwise the first
    /// hosted-on-home proof of the local own profile is used to connect to
    /// its home and log in, and the new session is cached. Fails with
    /// `LoginFailed` when there is no such proof or the home refuses it.
    pub fn login(&mut self, connector: &mut DummyConnector) -> (r: Result<HomeSessionDummy, HomeError>)
        requires
            old(connector).home.wf(),
            old(self).wf(),
        ensures
            final(connector).home.wf(),
            final(self).wf(),
            r matches Ok(s) ==> s@.profile == old(self).signer_id(),
            final(connector).home.call_queues() == old(connector).home.call_queues(),
            final(self).signer_id() == old(self).signer_id(),
            final(self).signer_key() == old(self).signer_key(),
            final(self).local_profile() == old(self).local_profile(),
            ({
                let home = old(connector).home;
                let me = old(self).signer_id();
                let cached_live = old(self).cached_session() matches Some(s) && session_live(home.sessions(), s);
                let proof = local_login_proof(old(self).local_profile());
                &&& cached_live ==> r is Ok && r->Ok_0@ == old(self).cached_session()->Some_0 && *final(connector)
                    == *old(connector)
                &&& r is Ok <==> login_possible(old(self).cached_session(), me, old(self).local_profile(), home)
                &&& r is Err ==> r == Err::<HomeSessionDummy, HomeError>(login_error(me, old(self).local_profile(), home))
                &&& !cached_live && r is Ok ==> r->Ok_0@ == (HomeSessionView {
                    profile: proof->Some_0.a_id,
                    token: home.next_token(),
                }) && (final(connector).home.sessions(), final(connector).home.next_token()) == after_login(
                    home.sessions(),
                    home.next_token(),
                    proof->Some_0.a_id,
                ) && final(connector).home.same_content(&home)
            }),
            r matches Ok(s) ==> session_live(final(connector).home.sessions(), s@) && final(self).cached_session() == Some(
                s@,
            ),
            r is Err ==> *final(connector) == *old(connector) && final(self).cached_session() == old(self).cached_session(),
    {
        let cached = match &self.session {
            Some(s) => if connector.home.is_live(s) {
                Some(s.clone_handle())
            } else {
                None
            },
            None => None,
        };
        if let Some(s) = cached {
            return Ok(s);
        }
        let proof = match &self.own_profile {
            Some(own) => match Self::find_hosted_proof(&own.profile) {
                Some(p) => p,
                None => {
                    return Err(HomeError::LoginFailed);
                },
            },
            None => {
                return Err(HomeError::LoginFailed);
            },
        };
        if !proof.a_id.same_as(self.signer.prof_id()) {
            return Err(HomeError::LoginFailed);
        }
        match self.connect_home(connector, &proof.b_id) {
            Err(e) => {
                return Err(e);
            },
            Ok(()) => {},
        }
        let session = match connector.home.login(&proof) {
            Ok(s) => s,
            Err(e) => {
                return Err(e);
            },
        };
        self.session = Some(session.clone_handle());
        Ok(session)
    }

    /// Calls the other side of `proof` for `app`: connects to the home
    /// hosting the callee and has it mediate the call. `InvalidProof` when
    /// the proof does not name this profile; `ConnectionFailed` or `NotFound`
    /// when the callee's home cannot be reached.
    pub fn call(
        &self,
        connector: &mut DummyConnector,
        proof: &RelationProof,
        app: &ApplicationId,
        init_payload: AppMessageFrame,
        to_caller: Option<ChannelId>,
    ) -> (r: Result<Option<ChannelId>, HomeError>)
        requires
            old(connector).home.wf(),
        ensures
            final(connector).home.wf(),
            ({
                let home = old(connector).home;
                let me = self.signer_id();
                &&& r == gateway_call_result(home, home.channels().len(), me, proof@)
                &&& r matches Ok(Some(fwd)) ==> {
                    let callee = peer_of(proof@, me)->Some_0;
                    &&& final(connector).home.channels() == home.channels().push(
                        ChannelView { messages: Seq::empty(), capacity: CHANNEL_CAPACITY as nat, closed: false },
                    )
                    &&& calls_view(final(connector).home.pending_calls(callee)) == calls_view(
                        home.pending_calls(callee),
                    ).push(
                        IncomingCallView {
                            caller: me,
                            app: app@,
                            init_payload: init_payload@,
                            to_caller: to_caller,
                            from_caller: fwd,
                        },
                    )
                    &&& final(connector).home.call_queues() == home.call_queues().insert(
                        callee,
                        final(connector).home.call_queues()[callee],
                    )
                    &&& events_view(final(connector).home.pending_events(callee)) == events_view(
                        home.pending_events(callee),
                    ).push(ProfileEventView::IncomingCall(app@))
                    &&& final(connector).home.same_registry(&home)
                }
            }),
            !(r matches Ok(Some(_))) ==> *final(connector) == *old(connector),
    {
        let me = self.signer.prof_id();
        let callee = match proof.peer_id(me) {
            Ok(id) => id,
            Err(e) => {
                return Err(e);
            },
        };
        let home_proof = match Self::find_login_proof(&connector.home, &callee) {
            Some(p) => p,
            None => {
                return Err(HomeError::ConnectionFailed);
            },
        };
        let home_id = match home_proof.peer_id(&callee) {
            Ok(id) => id,
            Err(_) => {
                return Err(HomeError::ConnectionFailed);
            },
        };
        match self.connect_home(connector, &home_id) {
            Err(e) => {
                return Err(e);
            },
            Ok(()) => {},
        }
        connector.home.call(me, proof, app, init_payload, to_caller)
    }
}

} // verus!
