//! A bounded, multi-subscriber broadcast channel.
//!
//! The channel keeps the newest `CHANNEL_CAPACITY` published messages in a
//! ring; each subscriber owns an independent cursor into the all-time publish
//! log. Publishing never blocks and never fails: a subscriber that has fallen
//! more than the capacity behind silently loses its oldest unread messages
//! and is told how many. A fresh subscriber starts at the end of the log, so
//! it only ever sees messages published after it subscribed.

use vstd::prelude::*;
use crate::messages::{BridgeMessage, BridgeMessageView};

verus! {

/// How many messages the channel buffers for its subscribers.
pub const CHANNEL_CAPACITY: usize = 100;

/// The shared fan-out state: a ring of the newest messages over the all-time
/// publish log.
pub struct BroadcastChannel {
    buffer: Vec<BridgeMessage>,
    total: u64,
    log: Ghost<Seq<BridgeMessageView>>,
}

/// One subscriber's private cursor into a channel's publish log.
pub struct Subscriber {
    cursor: u64,
    lost: u64,
}

/// What one receive attempt yields.
pub enum RecvOutcome {
    /// Nothing was published since the subscriber caught up.
    Empty,
    /// The subscriber lagged more than the capacity behind: this many of its
    /// oldest unread messages were dropped; the next receive returns the
    /// oldest message still buffered.
    Lagged(u64),
    /// The next unread message, in publish order.
    Message(BridgeMessage),
}

impl BroadcastChannel {
    /// Every message ever published on this channel, in publish order.
    pub closed spec fn log(self) -> Seq<BridgeMessageView> {
        self.log@
    }

    /// The buffer holds exactly the newest messages of the log, in order.
    pub closed spec fn wf(self) -> bool {
        &&& self.log@.len() == self.total
        &&& self.buffer@.len() == if self.total <= CHANNEL_CAPACITY as u64 {
            self.total as int
        } else {
            CHANNEL_CAPACITY as int
        }
        &&& forall|i: int|
            0 <= i < self.buffer@.len() ==> self.buffer@[i]@ == self.log@[self.total
                - self.buffer@.len() + i]
    }

    /// A fresh channel with an empty log and no subscribers.
    pub fn new() -> (c: Self)
        ensures
            c.wf(),
            c.log() == Seq::<BridgeMessageView>::empty(),
    {
        BroadcastChannel { buffer: Vec::new(), total: 0, log: Ghost(Seq::empty()) }
    }

    /// Fans one message out: it is appended to the log, where every current
    /// subscriber within capacity will find it. Publishing never blocks and
    /// never fails; with a full buffer the oldest buffered entry is dropped.
    pub fn publish(&mut self, m: BridgeMessage)
        requires
            old(self).wf(),
            old(self).log().len() < u64::MAX,
        ensures
            final(self).wf(),
            final(self).log() == old(self).log().push(m@),
    {
        if self.buffer.len() == CHANNEL_CAPACITY {
            self.buffer.remove(0);
        }
        self.buffer.push(m);
        self.total = self.total + 1;
        proof {
            self.log@ = self.log@.push(m@);
        }
    }

    /// How many messages were ever published on this channel.
    pub fn published(&self) -> (r: u64)
        requires
            self.wf(),
        ensures
            r == self.log().len(),
    {
        self.total
    }

    /// A fresh cursor standing at the end of the log: it sees only messages
    /// published after this call, with no replay of history.
    pub fn subscribe(&self) -> (s: Subscriber)
        requires
            self.wf(),
        ensures
            s.wf_for(*self),
            s.position() == self.log().len(),
            s.dropped() == 0,
    {
        Subscriber { cursor: self.total, lost: 0 }
    }
}

/// Law: fan-out keeps publish order. A publish appends the new message after
/// everything a subscriber has yet to read, moves none of it, and leaves the
/// subscriber's cursor valid; so the messages a subscriber reads from its
/// position onward are exactly the messages published after that position, in
/// publish order, unmodified.
pub proof fn lemma_publish_keeps_pending(
    before: BroadcastChannel,
    after: BroadcastChannel,
    s: Subscriber,
    m: BridgeMessageView,
)
    requires
        s.wf_for(before),
        after.wf(),
        after.log() == before.log().push(m),
    ensures
        s.wf_for(after),
        after.log()[after.log().len() - 1] == m,
        forall|i: int| s.position() <= i < before.log().len() ==> after.log()[i] == before.log()[i],
{
}

impl Subscriber {
    /// Index into the channel's log of the next message this subscriber reads.
    pub closed spec fn position(self) -> int {
        self.cursor as int
    }

    /// How many messages this subscriber has lost to lagging, in all.
    pub closed spec fn dropped(self) -> int {
        self.lost as int
    }

    /// How many messages this subscriber has lost to lagging, in all: the
    /// observable drop counter.
    pub fn lagged_total(&self) -> (r: u64)
        ensures
            r == self.dropped(),
    {
        self.lost
    }

    /// The cursor points into (or just past) the channel's log.
    pub closed spec fn wf_for(self, c: BroadcastChannel) -> bool {
        &&& c.wf()
        &&& self.cursor <= c.log().len()
        &&& self.lost <= self.cursor
    }

    /// One receive attempt. Within capacity, the next unread message comes
    /// back exactly as published and the cursor advances by one, so repeated
    /// receives observe the log in publish order, unmodified. A subscriber
    /// more than the capacity behind loses its oldest unread messages instead
    /// of delaying them or blocking the publisher.
    pub fn recv(&mut self, c: &BroadcastChannel) -> (r: RecvOutcome)
        requires
            old(self).wf_for(*c),
        ensures
            final(self).wf_for(*c),
            old(self).position() <= final(self).position(),
            old(self).dropped() <= final(self).dropped(),
            r is Empty <==> old(self).position() == c.log().len(),
            old(self).position() == c.log().len() ==> *final(self) == *old(self),
            old(self).position() + CHANNEL_CAPACITY < c.log().len() ==> {
                &&& r matches RecvOutcome::Lagged(n) && n == c.log().len() - CHANNEL_CAPACITY
                    - old(self).position()
                &&& final(self).position() == c.log().len() - CHANNEL_CAPACITY
                &&& final(self).dropped() == old(self).dropped() + c.log().len()
                    - CHANNEL_CAPACITY - old(self).position()
            },
            (old(self).position() < c.log().len() && old(self).position() + CHANNEL_CAPACITY
                >= c.log().len()) ==> {
                &&& r matches RecvOutcome::Message(m) && m@ == c.log()[old(self).position()]
                &&& final(self).position() == old(self).position() + 1
                &&& final(self).dropped() == old(self).dropped()
            },
    {
        if self.cursor == c.total {
            RecvOutcome::Empty
        } else {
            let oldest: u64 = c.total - c.buffer.len() as u64;
            if self.cursor < oldest {
                let n = oldest - self.cursor;
                self.cursor = oldest;
                self.lost = self.lost + n;
                RecvOutcome::Lagged(n)
            } else {
                let idx = (self.cursor - oldest) as usize;
                let m = c.buffer[idx].duplicate();
                self.cursor = self.cursor + 1;
                RecvOutcome::Message(m)
            }
        }
    }
}

} // verus!
