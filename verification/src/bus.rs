//! The event bus facade: the object callers hold.
//!
//! It owns the subscriber registry and the delivery channel, and decides
//! everything the bus decides: which handlers a subscription reaches, which
//! messages enter the queue, and which handlers a dequeued message is
//! delivered to, in what order. The embedding layer around it supplies what
//! the bus deliberately leaves outside: the scheduling of subscribe and
//! publish requests, the blocking wait for the next message, and the actual
//! invocation of the opaque callables.

use vstd::prelude::*;

use crate::Handler;
use crate::Message;
use crate::MessageView;
use crate::channel::Channel;
use crate::channel::send_spec;
use crate::dispatch::Dispatch;
use crate::registry::Registry;
use crate::registry::handlers_for;
use crate::registry::register_spec;

verus! {

/// The mathematical value of a [`Bus`]: who is subscribed to what, and which
/// messages await dispatch, oldest first.
pub ghost struct BusView {
    /// Event name to the ordered handler list registered for it.
    pub subscribers: Map<Seq<char>, Seq<Handler>>,
    /// The queued messages, in the order their publishes were accepted.
    pub pending: Seq<MessageView>,
}

/// The event bus: the subscriber registry together with the delivery
/// channel.
pub struct Bus {
    registry: Registry,
    channel: Channel,
}

impl View for Bus {
    type V = BusView;

    closed spec fn view(&self) -> BusView {
        BusView { subscribers: self.registry@, pending: self.channel@ }
    }
}

impl Bus {
    /// Internal shape of both halves.
    pub closed spec fn wf(&self) -> bool {
        self.registry.wf() && self.channel.wf()
    }

    /// A fresh bus: nobody subscribed, nothing pending.
    pub fn new() -> (b: Bus)
        ensures
            b.wf(),
            b@.subscribers == Map::<Seq<char>, Seq<Handler>>::empty(),
            b@.pending == Seq::<MessageView>::empty(),
    {
        Bus { registry: Registry::new(), channel: Channel::new() }
    }

    /// Registers `handler` for `event`: it is appended to the event's
    /// subscription list, after every handler registered for that event so
    /// far. Registration never rejects and never touches the queue.
    pub fn subscribe(&mut self, event: String, handler: Handler)
        requires
            old(self).wf(),
        ensures
            final(self).wf(),
            final(self)@.subscribers == register_spec(old(self)@.subscribers, event@, handler),
            final(self)@.pending == old(self)@.pending,
    {
        self.registry.register(event, handler);
    }

    /// Publishes `event` with `args`: the message joins the back of the
    /// queue, unless the queue is full, in which case it is dropped silently
    /// — no error is surfaced to the publisher. Subscriptions are untouched.
    pub fn publish(&mut self, event: String, args: Vec<u64>)
        requires
            old(self).wf(),
        ensures
            final(self).wf(),
            final(self)@.subscribers == old(self)@.subscribers,
            final(self)@.pending == send_spec(
                old(self)@.pending,
                MessageView { event: event@, args: args@ },
            ),
    {
        let _ = self.channel.send(Message { event, args });
    }

    /// How many messages await dispatch.
    pub fn pending_len(&self) -> (n: usize)
        ensures
            n == self@.pending.len(),
    {
        self.channel.len()
    }

    /// Dequeues the oldest pending message and opens its dispatch: the walk
    /// over exactly the handlers registered for the message's event name at
    /// this moment, in registration order, each to be invoked with the
    /// message's argument list. A message whose event has no subscribers
    /// yields a dispatch with no handlers — a no-op, not an error. Returns
    /// nothing when no message is pending.
    pub fn dispatch_next(&mut self) -> (r: Option<Dispatch>)
        requires
            old(self).wf(),
        ensures
            final(self).wf(),
            final(self)@.subscribers == old(self)@.subscribers,
            old(self)@.pending.len() == 0 ==> r is None && final(self)@.pending == old(
                self,
            )@.pending,
            old(self)@.pending.len() > 0 ==> (r matches Some(d) && d.wf() && d@.event == old(
                self,
            )@.pending[0].event && d@.args == old(self)@.pending[0].args && d@.handlers
                == handlers_for(old(self)@.subscribers, old(self)@.pending[0].event) && d@.next
                == 0 && final(self)@.pending == old(self)@.pending.drop_first()),
    {
        match self.channel.recv() {
            None => None,
            Some(m) => {
                let handlers = self.registry.lookup(&m.event);
                Some(Dispatch::new(m.event, m.args, handlers))
            },
        }
    }
}

} // verus!
