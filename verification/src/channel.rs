//! The delivery channel: a bounded, strictly first-in-first-out queue of
//! messages between publishers and the dispatch loop.
//!
//! A send onto a full queue drops the message silently rather than blocking
//! the publisher: the bus favors publisher responsiveness over a delivery
//! guarantee, and no error is surfaced. Receiving dequeues in the exact order
//! the accepted sends happened.

use vstd::prelude::*;

use crate::Message;
use crate::MessageView;

verus! {

/// How many messages the delivery channel holds at most.
pub const CHANNEL_CAPACITY: usize = 1024;

/// What one send does to the queue: the message is appended when there is
/// room, and dropped without a trace when the queue is full.
pub open spec fn send_spec(q: Seq<MessageView>, m: MessageView) -> Seq<MessageView> {
    if q.len() < CHANNEL_CAPACITY {
        q.push(m)
    } else {
        q
    }
}

/// The delivery channel. Its mathematical value is the sequence of queued
/// messages, oldest first.
pub struct Channel {
    queue: Vec<Message>,
}

impl View for Channel {
    type V = Seq<MessageView>;

    closed spec fn view(&self) -> Seq<MessageView> {
        self.queue@.map_values(|m: Message| m@)
    }
}

impl Channel {
    /// Internal shape: the queue never exceeds the channel's capacity.
    pub closed spec fn wf(&self) -> bool {
        self.queue@.len() <= CHANNEL_CAPACITY
    }

    /// An empty channel.
    pub fn new() -> (c: Channel)
        ensures
            c.wf(),
            c@ == Seq::<MessageView>::empty(),
    {
        let c = Channel { queue: Vec::new() };
        proof {
            assert(c@ =~= Seq::<MessageView>::empty());
        }
        c
    }

    /// Enqueues `m` unless the queue is full, in which case the message is
    /// dropped. Returns whether the message was accepted.
    pub fn send(&mut self, m: Message) -> (accepted: bool)
        requires
            old(self).wf(),
        ensures
            final(self).wf(),
            accepted == (old(self)@.len() < CHANNEL_CAPACITY),
            final(self)@ == send_spec(old(self)@, m@),
    {
        if self.queue.len() < CHANNEL_CAPACITY {
            let ghost q0 = self.queue@;
            self.queue.push(m);
            proof {
                assert(self@ =~= q0.map_values(|x: Message| x@).push(m@));
            }
            true
        } else {
            false
        }
    }

    /// Dequeues the oldest message, or returns nothing when the queue is
    /// empty. This is the only way messages leave the channel, so delivery
    /// order is exactly acceptance order.
    pub fn recv(&mut self) -> (r: Option<Message>)
        requires
            old(self).wf(),
        ensures
            final(self).wf(),
            old(self)@.len() == 0 ==> r is None && final(self)@ == old(self)@,
            old(self)@.len() > 0 ==> (r matches Some(m) && m@ == old(self)@[0] && final(self)@
                == old(self)@.drop_first()),
    {
        if self.queue.len() == 0 {
            None
        } else {
            let ghost q0 = self.queue@;
            let m = self.queue.remove(0);
            proof {
                assert(self@ =~= q0.map_values(|x: Message| x@).drop_first());
            }
            Some(m)
        }
    }

    /// How many messages are queued.
    pub fn len(&self) -> (n: usize)
        ensures
            n == self@.len(),
    {
        self.queue.len()
    }
}

} // verus!
