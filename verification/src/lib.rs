//! An in-process publish/subscribe event bus core.
//!
//! Callers register named event handlers and later publish named events
//! carrying an argument list; the bus delivers every message, in publish
//! order, to the handlers registered for its event name, in registration
//! order. Handlers and argument values are opaque to the bus: it stores
//! identifying tokens and hands them back for invocation, never inspecting
//! them. The embedding layer maps each token to the real callable or value,
//! performs the actual invocations, and reports their outcomes back, which
//! the bus discards.

use vstd::prelude::*;

pub mod bus;
pub mod channel;
pub mod dispatch;
pub mod laws;
pub mod registry;

verus! {

/// An opaque reference to a registered callback.
///
/// The bus never inspects a handler: it only stores it and hands it back when
/// a matching event is dispatched. The embedding layer chooses the
/// identifiers and maps each one to the real callable.
#[derive(Clone, Copy, PartialEq, Eq, Structural, Debug)]
pub struct Handler {
    pub id: u64,
}

/// A message awaiting dispatch: an event name paired with the argument list
/// it was published with. Argument values are opaque tokens passed through
/// to the handlers unmodified.
pub struct Message {
    pub event: String,
    pub args: Vec<u64>,
}

/// The mathematical value of a [`Message`].
pub ghost struct MessageView {
    pub event: Seq<char>,
    pub args: Seq<u64>,
}

impl View for Message {
    type V = MessageView;

    open spec fn view(&self) -> MessageView {
        MessageView { event: self.event@, args: self.args@ }
    }
}

} // verus!
