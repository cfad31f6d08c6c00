//! Bounded message channels of application calls. A send on a full channel
//! is refused with the message handed back, so a producer waits for the
//! consumer and no message is dropped.
use vstd::prelude::*;
use crate::identity::AppMessageFrame;

verus! {

/// Number of messages a call channel holds before senders must wait.
pub const CHANNEL_CAPACITY: usize = 10;

pub struct ChannelView {
    pub messages: Seq<Seq<u8>>,
    pub capacity: nat,
    pub closed: bool,
}

/// Whether a send would be accepted now.
pub open spec fn can_send(c: ChannelView) -> bool {
    !c.closed && c.messages.len() < c.capacity
}

/// The channel after a send of `m`, and whether the send was accepted.
pub open spec fn send_step(c: ChannelView, m: Seq<u8>) -> (ChannelView, bool) {
    if can_send(c) {
        (ChannelView { messages: c.messages.push(m), ..c }, true)
    } else {
        (c, false)
    }
}

/// The channel after a receive, and the message received, if any.
pub open spec fn recv_step(c: ChannelView) -> (ChannelView, Option<Seq<u8>>) {
    if c.messages.len() == 0 {
        (c, None)
    } else {
        (ChannelView { messages: c.messages.drop_first(), ..c }, Some(c.messages[0]))
    }
}

pub open spec fn frames_view(v: Seq<AppMessageFrame>) -> Seq<Seq<u8>> {
    v.map_values(|m: AppMessageFrame| m@)
}

pub open spec fn opt_frame_view(o: Option<AppMessageFrame>) -> Option<Seq<u8>> {
    match o {
        Some(m) => Some(m@),
        None => None,
    }
}

#[derive(Debug)]
pub struct BoundedChannel {
    buffer: Vec<AppMessageFrame>,
    capacity: usize,
    closed: bool,
}

impl View for BoundedChannel {
    type V = ChannelView;

    closed spec fn view(&self) -> ChannelView {
        ChannelView { messages: frames_view(self.buffer@), capacity: self.capacity as nat, closed: self.closed }
    }
}

impl BoundedChannel {
    pub fn new(capacity: usize) -> (r: BoundedChannel)
        ensures
            r@ == (ChannelView { messages: Seq::empty(), capacity: capacity as nat, closed: false }),
    {
        let r = BoundedChannel { buffer: Vec::new(), capacity, closed: false };
        assert(frames_view(r.buffer@) =~= Seq::empty());
        r
    }

    pub fn len(&self) -> (r: usize)
        ensures
            r == self@.messages.len(),
    {
        self.buffer.len()
    }

    pub fn is_closed(&self) -> (r: bool)
        ensures
            r == self@.closed,
    {
        self.closed
    }

    /// Queues `msg`, or hands it back when the channel is full or closed.
    pub fn try_send(&mut self, msg: AppMessageFrame) -> (r: Result<(), AppMessageFrame>)
        ensures
            (final(self)@, r is Ok) == send_step(old(self)@, msg@),
            r matches Err(m) ==> m == msg,
    {
        if self.closed || self.buffer.len() >= self.capacity {
            return Err(msg);
        }
        self.buffer.push(msg);
        assert(frames_view(self.buffer@) =~= frames_view(old(self).buffer@).push(msg@));
        Ok(())
    }

    /// Takes the oldest queued message.
    pub fn try_recv(&mut self) -> (r: Option<AppMessageFrame>)
        ensures
            (final(self)@, opt_frame_view(r)) == recv_step(old(self)@),
    {
        if self.buffer.len() == 0 {
            return None;
        }
        let m = self.buffer.remove(0);
        assert(frames_view(self.buffer@) =~= frames_view(old(self).buffer@).drop_first());
        Some(m)
    }

    /// Refuses further sends; queued messages can still be received.
    pub fn close(&mut self)
        ensures
            final(self)@ == (ChannelView { closed: true, ..old(self)@ }),
    {
        self.closed = true;
    }
}

/// A full, open channel refuses the next send and keeps the message with the
/// sender; once the receiver takes one message the same send is accepted,
/// and every message sent comes out, in order.
pub proof fn lemma_backpressure(c: ChannelView, m: Seq<u8>)
    requires
        !c.closed,
        c.capacity > 0,
        c.messages.len() == c.capacity,
    ensures
        send_step(c, m) == (c, false),
        recv_step(c).1 == Some(c.messages[0]),
        send_step(recv_step(c).0, m).1,
        seq![c.messages[0]] + send_step(recv_step(c).0, m).0.messages == c.messages.push(m),
{
    let after = recv_step(c).0;
    assert(seq![c.messages[0]] + after.messages.push(m) =~= c.messages.push(m));
}

/// Handle of a channel within a channel table.
#[derive(Debug, Clone, Copy, PartialEq, Eq, Structural)]
pub struct ChannelId(pub usize);

/// The channels that a home mediates, addressed by `ChannelId`.
#[derive(Debug)]
pub struct ChannelTable {
    channels: Vec<BoundedChannel>,
}

impl View for ChannelTable {
    type V = Seq<ChannelView>;

    closed spec fn view(&self) -> Seq<ChannelView> {
        self.channels@.map_values(|c: BoundedChannel| c@)
    }
}

impl ChannelTable {
    pub fn new() -> (r: ChannelTable)
        ensures
            r@ == Seq::<ChannelView>::empty(),
    {
        let r = ChannelTable { channels: Vec::new() };
        assert(r@ =~= Seq::<ChannelView>::empty());
        r
    }

    pub fn len(&self) -> (r: usize)
        ensures
            r == self@.len(),
    {
        self.channels.len()
    }

    /// Opens a new, empty channel; `None` when no more ids are left.
    pub fn open(&mut self, capacity: usize) -> (r: Option<ChannelId>)
        ensures
            r is Some <==> old(self)@.len() < usize::MAX,
            r matches Some(id) ==> id.0 == old(self)@.len() && final(self)@ == old(self)@.push(
                ChannelView { messages: Seq::empty(), capacity: capacity as nat, closed: false },
            ),
            r is None ==> final(self)@ == old(self)@,
    {
        if self.channels.len() == usize::MAX {
            return None;
        }
        let id = ChannelId(self.channels.len());
        self.channels.push(BoundedChannel::new(capacity));
        assert(self@ =~= old(self)@.push(
            ChannelView { messages: Seq::empty(), capacity: capacity as nat, closed: false },
        ));
        Some(id)
    }

    /// Sends on channel `id`; the message comes back when the channel is
    /// full or closed, or when there is no such channel.
    pub fn send(&mut self, id: ChannelId, msg: AppMessageFrame) -> (r: Result<(), AppMessageFrame>)
        ensures
            id.0 < old(self)@.len() ==> (final(self)@[id.0 as int], r is Ok) == send_step(old(self)@[id.0 as int], msg@)
                && final(self)@ == old(self)@.update(id.0 as int, final(self)@[id.0 as int]),
            id.0 >= old(self)@.len() ==> r is Err && final(self)@ == old(self)@,
            r matches Err(m) ==> m == msg,
    {
        if id.0 >= self.channels.len() {
            return Err(msg);
        }
        let r = self.channels[id.0].try_send(msg);
        assert(self@ =~= old(self)@.update(id.0 as int, self@[id.0 as int]));
        r
    }

    /// Receives from channel `id`; `None` when it is empty or does not exist.
    pub fn recv(&mut self, id: ChannelId) -> (r: Option<AppMessageFrame>)
        ensures
            id.0 < old(self)@.len() ==> (final(self)@[id.0 as int], opt_frame_view(r)) == recv_step(
                old(self)@[id.0 as int],
            ) && final(self)@ == old(self)@.update(id.0 as int, final(self)@[id.0 as int]),
            id.0 >= old(self)@.len() ==> r is None && final(self)@ == old(self)@,
    {
        if id.0 >= self.channels.len() {
            return None;
        }
        let r = self.channels[id.0].try_recv();
        assert(self@ =~= old(self)@.update(id.0 as int, self@[id.0 as int]));
        r
    }

    /// Closes channel `id`, if there is one.
    pub fn close(&mut self, id: ChannelId)
        ensures
            id.0 < old(self)@.len() ==> final(self)@ == old(self)@.update(
                id.0 as int,
                ChannelView { closed: true, ..old(self)@[id.0 as int] },
            ),
            id.0 >= old(self)@.len() ==> final(self)@ == old(self)@,
    {
        if id.0 < self.channels.len() {
            self.channels[id.0].close();
            assert(self@ =~= old(self)@.update(
                id.0 as int,
                ChannelView { closed: true, ..old(self)@[id.0 as int] },
            ));
        }
    }
}

} // verus!
