//! Per-connection state of the application-facing front end: the
//! application session it opened and its pending event subscription.
use vstd::prelude::*;
use crate::dapp::DAppConnect;

verus! {

pub struct SessionData {
    pub dapp_session: Option<DAppConnect>,
    pub cancel_events: Option<u64>,
}

impl SessionData {
    pub fn new() -> (r: SessionData)
        ensures
            r.dapp_session is None,
            r.cancel_events is None,
    {
        SessionData { dapp_session: None, cancel_events: None }
    }
}

/// Front-end session: at most one application session and one event
/// subscription, named by its id.
pub struct Session {
    inner: SessionData,
}

impl Session {
    pub closed spec fn has_dapp_session(&self) -> bool {
        self.inner.dapp_session is Some
    }

    /// The application session held, if any.
    pub closed spec fn held_dapp_session(&self) -> Option<DAppConnect> {
        self.inner.dapp_session
    }

    /// The id of the pending event subscription, if any.
    pub closed spec fn subscription(&self) -> Option<u64> {
        self.inner.cancel_events
    }

    pub fn new() -> (r: Session)
        ensures
            !r.has_dapp_session(),
            r.held_dapp_session() is None,
            r.subscription() is None,
    {
        Session { inner: SessionData::new() }
    }

    pub fn dapp_session(&self) -> (r: Option<&DAppConnect>)
        ensures
            r is Some <==> self.has_dapp_session(),
            r matches Some(d) ==> self.held_dapp_session() == Some(*d),
    {
        match &self.inner.dapp_session {
            Some(d) => Some(d),
            None => None,
        }
    }

    /// Installs the application session, replacing an earlier one.
    pub fn set_dapp_session(&mut self, dapp_session: DAppConnect)
        ensures
            final(self).has_dapp_session(),
            final(self).held_dapp_session() == Some(dapp_session),
            final(self).subscription() == old(self).subscription(),
    {
        self.inner.dapp_session = Some(dapp_session);
    }

    /// Takes the pending subscription, leaving none; taking again finds
    /// none, which is no error.
    pub fn take_cancel_events(&mut self) -> (r: Option<u64>)
        ensures
            r == old(self).subscription(),
            final(self).subscription() is None,
            final(self).held_dapp_session() == old(self).held_dapp_session(),
    {
        let previous = self.inner.cancel_events;
        self.inner.cancel_events = None;
        previous
    }

    /// Records subscription `id`, handing back the one it replaces, which is
    /// thereby cancelled.
    pub fn set_cancel_events(&mut self, id: u64) -> (r: Option<u64>)
        ensures
            r == old(self).subscription(),
            final(self).subscription() == Some(id),
            final(self).held_dapp_session() == old(self).held_dapp_session(),
    {
        let previous = self.inner.cancel_events;
        self.inner.cancel_events = Some(id);
        previous
    }
}

} // verus!
