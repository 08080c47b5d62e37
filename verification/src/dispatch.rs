//! Dispatch of one dequeued message: the ordered walk over the handlers that
//! were registered for its event name when the message was dequeued.
//!
//! The dispatch loop drives a [`Dispatch`] by asking for the next handler to
//! invoke, performing the invocation outside the bus, and reporting the
//! outcome back. The outcome is discarded: a handler that fails never
//! prevents the remaining handlers of the same message, or any later
//! message, from being invoked.

use vstd::prelude::*;

use crate::Handler;

verus! {

/// What a single handler invocation came to. The bus ignores a handler's
/// return value and swallows its failure, so the two cases are carried only
/// to be discarded.
#[derive(Clone, Copy, PartialEq, Eq, Structural, Debug)]
pub enum CallOutcome {
    /// The handler returned, with whatever value.
    Completed,
    /// The handler raised or failed in its native call convention.
    Failed,
}

/// The mathematical value of a [`Dispatch`].
pub ghost struct DispatchView {
    /// The event name of the message being dispatched.
    pub event: Seq<char>,
    /// The argument list every handler of this message is invoked with.
    pub args: Seq<u64>,
    /// The handlers eligible for this message, in registration order.
    pub handlers: Seq<Handler>,
    /// How many of them have been handed out for invocation already.
    pub next: int,
}

/// The invocation state of one dequeued message: the snapshot of handlers
/// taken at dequeue time, the argument list, and how far the walk has come.
pub struct Dispatch {
    event: String,
    args: Vec<u64>,
    handlers: Vec<Handler>,
    next: usize,
}

impl View for Dispatch {
    type V = DispatchView;

    closed spec fn view(&self) -> DispatchView {
        DispatchView {
            event: self.event@,
            args: self.args@,
            handlers: self.handlers@,
            next: self.next as int,
        }
    }
}

impl Dispatch {
    /// Internal shape: the walk never points past the handler list.
    pub closed spec fn wf(&self) -> bool {
        self.next <= self.handlers@.len()
    }

    /// The handlers already handed out for invocation, in the order they
    /// were handed out.
    pub open spec fn invoked(self) -> Seq<Handler> {
        self@.handlers.take(self@.next)
    }

    /// The handlers still to be handed out, in order.
    pub open spec fn remaining(self) -> Seq<Handler> {
        self@.handlers.skip(self@.next)
    }

    /// A fresh dispatch for one message: no handler handed out yet.
    pub(crate) fn new(event: String, args: Vec<u64>, handlers: Vec<Handler>) -> (d: Dispatch)
        ensures
            d.wf(),
            d@.event == event@,
            d@.args == args@,
            d@.handlers == handlers@,
            d@.next == 0,
    {
        Dispatch { event, args, handlers, next: 0 }
    }

    /// The next handler to invoke, in registration order, or nothing once
    /// every eligible handler has been handed out. What any earlier
    /// invocation came to plays no part here.
    pub fn next_handler(&mut self) -> (r: Option<Handler>)
        requires
            old(self).wf(),
        ensures
            final(self).wf(),
            final(self)@.event == old(self)@.event,
            final(self)@.args == old(self)@.args,
            final(self)@.handlers == old(self)@.handlers,
            old(self)@.next < old(self)@.handlers.len() ==> (r matches Some(h) && h == old(
                self,
            )@.handlers[old(self)@.next] && final(self)@.next == old(self)@.next + 1),
            old(self)@.next >= old(self)@.handlers.len() ==> r is None && final(self)@.next == old(
                self,
            )@.next,
    {
        if self.next < self.handlers.len() {
            let h = self.handlers[self.next];
            self.next = self.next + 1;
            Some(h)
        } else {
            None
        }
    }

    /// Takes note of what the last invocation came to — and discards it.
    /// Whatever the outcome, the dispatch state is left exactly as it was:
    /// a failed handler never costs any other handler its invocation.
    pub fn note_outcome(&mut self, outcome: CallOutcome)
        ensures
            *final(self) == *old(self),
    {
        let _ = outcome;
    }

    /// The argument list every handler of this message is invoked with.
    pub fn args(&self) -> (r: &Vec<u64>)
        ensures
            r@ == self@.args,
    {
        &self.args
    }

    /// The event name of the message being dispatched.
    pub fn event(&self) -> (r: &String)
        ensures
            r@ == self@.event,
    {
        &self.event
    }

    /// How many handlers are still to be handed out.
    pub fn remaining_count(&self) -> (n: usize)
        requires
            self.wf(),
        ensures
            n == self.remaining().len(),
    {
        self.handlers.len() - self.next
    }
}

} // verus!
