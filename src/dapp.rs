//! Facade for a hosted application: logs in lazily, finds the relation with
//! a peer among its contacts, opens calls and collects incoming ones.
use vstd::prelude::*;
use crate::channel::{ChannelId, ChannelView, CHANNEL_CAPACITY};
use crate::gateway::{gateway_call_result, login_error, login_possible, DummyConnector, ProfileGateway};
use crate::home::{
    calls_for, calls_not_for, calls_view, events_view, session_live, HomeSessionDummy, IncomingCall,
    IncomingCallView, ProfileEventView,
};
use crate::identity::{peer_of, AppMessageFrame, ApplicationId, HomeError, ProfileId, Relation, RelationView};

verus! {

/// An open call: the caller writes on `sender` and reads the callee's
/// answers on `receiver`.
#[derive(Debug, Clone, Copy, PartialEq, Eq, Structural)]
pub struct Call {
    pub sender: ChannelId,
    pub receiver: ChannelId,
}

pub open spec fn relations_view(v: Seq<Relation>) -> Seq<RelationView> {
    v.map_values(|r: Relation| r@)
}

/// The first relation of `contacts` whose proof binds `me` to `peer`.
pub open spec fn first_relation(contacts: Seq<RelationView>, me: Seq<u8>, peer: Seq<u8>) -> Option<RelationView>
    decreases contacts.len(),
{
    if contacts.len() == 0 {
        None
    } else if peer_of(contacts[0].proof, me) == Some(peer) {
        Some(contacts[0])
    } else {
        first_relation(contacts.drop_first(), me, peer)
    }
}

/// The relation found for `peer` binds `me` to `peer`.
pub proof fn lemma_first_relation_binds(contacts: Seq<RelationView>, me: Seq<u8>, peer: Seq<u8>)
    requires
        first_relation(contacts, me, peer) is Some,
    ensures
        peer_of(first_relation(contacts, me, peer)->Some_0.proof, me) == Some(peer),
    decreases contacts.len(),
{
    if contacts.len() > 0 && peer_of(contacts[0].proof, me) != Some(peer) {
        lemma_first_relation_binds(contacts.drop_first(), me, peer);
    }
}

pub struct DAppConnect {
    gateway: ProfileGateway,
    app: ApplicationId,
    contacts: Vec<Relation>,
}

impl DAppConnect {
    pub closed spec fn gateway_view(&self) -> ProfileGateway {
        self.gateway
    }

    pub closed spec fn app_id(&self) -> Seq<char> {
        self.app@
    }

    pub closed spec fn contact_list(&self) -> Seq<RelationView> {
        relations_view(self.contacts@)
    }

    pub closed spec fn wf(&self) -> bool {
        self.gateway.wf()
    }

    pub open spec fn me(&self) -> Seq<u8> {
        self.gateway_view().signer_id()
    }

    pub fn new(gateway: ProfileGateway, app: &ApplicationId) -> (r: DAppConnect)
        requires
            gateway.wf(),
        ensures
            r.wf(),
            r.gateway_view() == gateway,
            r.app_id() == app@,
            r.contact_list() == Seq::<RelationView>::empty(),
    {
        let r = DAppConnect { gateway, app: app.copy(), contacts: Vec::new() };
        assert(relations_view(r.contacts@) =~= Seq::<RelationView>::empty());
        r
    }

    /// The profile this application acts as.
    pub fn selected_profile(&self) -> (r: &ProfileId)
        ensures
            r@ == self.me(),
    {
        self.gateway.signer().prof_id()
    }

    /// Adds a known relation to the contacts.
    pub fn add_contact(&mut self, relation: Relation)
        requires
            old(self).wf(),
        ensures
            final(self).wf(),
            final(self).contact_list() == old(self).contact_list().push(relation@),
            final(self).gateway_view() == old(self).gateway_view(),
            final(self).app_id() == old(self).app_id(),
    {
        self.contacts.push(relation);
        assert(relations_view(self.contacts@) =~= relations_view(old(self).contacts@).push(relation@));
    }

    /// The first contact whose proof binds this profile to `profile_id`.
    /// Without one the call fails with `PairingFailed`: no pairing is
    /// started on demand.
    pub fn get_relation_proof(&self, profile_id: &ProfileId) -> (r: Result<Relation, HomeError>)
        ensures
            match r {
                Ok(rel) => first_relation(self.contact_list(), self.me(), profile_id@) == Some(rel@),
                Err(e) => first_relation(self.contact_list(), self.me(), profile_id@) is None && e
                    == HomeError::PairingFailed,
            },
    {
        let me = self.gateway.signer().prof_id();
        let ghost cv = relations_view(self.contacts@);
        let mut i: usize = 0;
        assert(cv.subrange(0, cv.len() as int) =~= cv);
        while i < self.contacts.len()
            invariant
                0 <= i <= self.contacts@.len(),
                cv == relations_view(self.contacts@),
                me@ == self.me(),
                cv == self.contact_list(),
                first_relation(cv, me@, profile_id@) == first_relation(
                    cv.subrange(i as int, cv.len() as int),
                    me@,
                    profile_id@,
                ),
            decreases self.contacts@.len() - i,
        {
            let ghost tail = cv.subrange(i as int, cv.len() as int);
            assert(tail.drop_first() =~= cv.subrange(i + 1, cv.len() as int));
            assert(tail[0] == self.contacts@[i as int]@);
            match self.contacts[i].proof.peer_id(me) {
                Ok(peer) => {
                    if peer.same_as(profile_id) {
                        assert(first_relation(tail, me@, profile_id@) == Some(tail[0]));
                        return Ok(self.contacts[i].copy());
                    }
                },
                Err(_) => {},
            }
            i = i + 1;
        }
        assert(cv.subrange(i as int, cv.len() as int) =~= Seq::<RelationView>::empty());
        Err(HomeError::PairingFailed)
    }

    /// Logs in through the gateway, which reuses a live session.
    pub fn login(&mut self, connector: &mut DummyConnector) -> (r: Result<HomeSessionDummy, HomeError>)
        requires
            old(connector).home.wf(),
            old(self).wf(),
        ensures
            final(connector).home.wf(),
            final(self).wf(),
            final(self).me() == old(self).me(),
            final(self).app_id() == old(self).app_id(),
            final(self).contact_list() == old(self).contact_list(),
            final(connector).home.call_queues() == old(connector).home.call_queues(),
            final(self).gateway_view().local_profile() == old(self).gateway_view().local_profile(),
            ({
                let home = old(connector).home;
                let gw = old(self).gateway_view();
                let cached_live = gw.cached_session() matches Some(s) && session_live(home.sessions(), s);
                &&& cached_live ==> r is Ok && r->Ok_0@ == gw.cached_session()->Some_0 && *final(connector)
                    == *old(connector)
                &&& r is Ok <==> login_possible(gw.cached_session(), old(self).me(), gw.local_profile(), home)
                &&& r is Err ==> r == Err::<HomeSessionDummy, HomeError>(
                    login_error(old(self).me(), gw.local_profile(), home),
                )
            }),
            r matches Ok(s) ==> session_live(final(connector).home.sessions(), s@) && s@.profile == old(self).me()
                && final(self).gateway_view().cached_session() == Some(s@),
            r is Err ==> *final(connector) == *old(connector) && final(self).gateway_view().cached_session() == old(
                self,
            ).gateway_view().cached_session(),
    {
        self.gateway.login(connector)
    }

    /// Logs in if needed and takes the calls waiting for this application.
    pub fn checkin(&mut self, connector: &mut DummyConnector) -> (r: Result<Vec<IncomingCall>, HomeError>)
        requires
            old(connector).home.wf(),
            old(self).wf(),
        ensures
            final(connector).home.wf(),
            final(self).wf(),
            final(self).me() == old(self).me(),
            final(self).app_id() == old(self).app_id(),
            final(self).contact_list() == old(self).contact_list(),
            r is Ok <==> login_possible(
                old(self).gateway_view().cached_session(),
                old(self).me(),
                old(self).gateway_view().local_profile(),
                old(connector).home,
            ),
            r matches Ok(calls) ==> {
                &&& calls@ == calls_for(old(connector).home.pending_calls(old(self).me()), old(self).app_id())
                &&& final(connector).home.pending_calls(old(self).me()) == calls_not_for(
                    old(connector).home.pending_calls(old(self).me()),
                    old(self).app_id(),
                )
            },
            r is Err ==> *final(connector) == *old(connector) && r == Err::<Vec<IncomingCall>, HomeError>(
                login_error(old(self).me(), old(self).gateway_view().local_profile(), old(connector).home),
            ),
    {
        let session = match self.login(connector) {
            Ok(s) => s,
            Err(e) => {
                return Err(e);
            },
        };
        Ok(session.checkin_app(&mut connector.home, &self.app))
    }

    /// Calls `profile_id` with `init_payload`: finds the relation with it
    /// among the contacts (`PairingFailed` without one), opens the channel
    /// for the callee's answers and has the gateway place the call. A callee
    /// that declines gives `CallRefused`.
    pub fn call(&self, connector: &mut DummyConnector, profile_id: &ProfileId, init_payload: AppMessageFrame) -> (r:
        Result<Call, HomeError>)
        requires
            old(connector).home.wf(),
        ensures
            final(connector).home.wf(),
            first_relation(self.contact_list(), self.me(), profile_id@) is None ==> r == Err::<
                Call,
                HomeError,
            >(HomeError::PairingFailed) && *final(connector) == *old(connector),
            first_relation(self.contact_list(), self.me(), profile_id@) matches Some(rel) ==> {
                let home = old(connector).home;
                let empty = ChannelView { messages: Seq::empty(), capacity: CHANNEL_CAPACITY as nat, closed: false };
                &&& home.channels().len() == usize::MAX ==> r == Err::<Call, HomeError>(HomeError::CallRefused)
                    && *final(connector) == *old(connector)
                &&& home.channels().len() < usize::MAX ==> match gateway_call_result(
                    home,
                    (home.channels().len() + 1) as nat,
                    self.me(),
                    rel.proof,
                ) {
                    Err(e) => r == Err::<Call, HomeError>(e),
                    Ok(None) => r == Err::<Call, HomeError>(HomeError::CallRefused),
                    Ok(Some(_)) => r is Ok,
                }
                &&& home.channels().len() < usize::MAX && r is Err ==> {
                    &&& final(connector).home.channels() == home.channels().push(empty)
                    &&& final(connector).home.same_except_calls(&home)
                    &&& final(connector).home.call_queues() == home.call_queues()
                }
            },
            r matches Ok(c) ==> {
                let home = old(connector).home;
                let me = self.me();
                let rel = first_relation(self.contact_list(), me, profile_id@)->Some_0;
                let empty = ChannelView { messages: Seq::empty(), capacity: CHANNEL_CAPACITY as nat, closed: false };
                &&& c.receiver.0 == home.channels().len()
                &&& c.sender.0 == home.channels().len() + 1
                &&& final(connector).home.channels() == home.channels().push(empty).push(empty)
                &&& calls_view(final(connector).home.pending_calls(profile_id@)) == calls_view(
                    home.pending_calls(profile_id@),
                ).push(
                    IncomingCallView {
                        caller: me,
                        app: self.app_id(),
                        init_payload: init_payload@,
                        to_caller: Some(c.receiver),
                        from_caller: c.sender,
                    },
                )
                &&& final(connector).home.call_queues() == home.call_queues().insert(
                    profile_id@,
                    final(connector).home.call_queues()[profile_id@],
                )
                &&& events_view(final(connector).home.pending_events(profile_id@)) == events_view(
                    home.pending_events(profile_id@),
                ).push(ProfileEventView::IncomingCall(self.app_id()))
                &&& final(connector).home.same_registry(&home)
            },
    {
        let relation = match self.get_relation_proof(profile_id) {
            Ok(rel) => rel,
            Err(e) => {
                return Err(e);
            },
        };
        proof {
            lemma_first_relation_binds(self.contact_list(), self.me(), profile_id@);
        }
        if connector.home.channel_count() == usize::MAX {
            return Err(HomeError::CallRefused);
        }
        let receiver = match connector.home.open_channel(CHANNEL_CAPACITY) {
            Some(id) => id,
            None => {
                return Err(HomeError::CallRefused);
            },
        };
        match self.gateway.call(connector, &relation.proof, &self.app, init_payload, Some(receiver)) {
            Err(e) => Err(e),
            Ok(None) => Err(HomeError::CallRefused),
            Ok(Some(sender)) => Ok(Call { sender, receiver }),
        }
    }
}

} // verus!
