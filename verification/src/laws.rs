//! The delivery guarantees of the bus, stated and proved over its
//! mathematical model.
//!
//! Each law speaks of the spec functions that the contracts of
//! [`crate::bus::Bus`], [`crate::registry::Registry`] and
//! [`crate::channel::Channel`] are written in, so it carries over to any run
//! of the executable code.

use vstd::prelude::*;

use crate::Handler;
use crate::MessageView;
use crate::channel::CHANNEL_CAPACITY;
use crate::channel::send_spec;
use crate::registry::handlers_for;
use crate::registry::register_spec;

verus! {

/// The registry after registering each handler of `hs` for `e`, first to
/// last, starting from `m`.
pub open spec fn register_all(
    m: Map<Seq<char>, Seq<Handler>>,
    e: Seq<char>,
    hs: Seq<Handler>,
) -> Map<Seq<char>, Seq<Handler>>
    decreases hs.len(),
{
    if hs.len() == 0 {
        m
    } else {
        register_spec(register_all(m, e, hs.drop_last()), e, hs.last())
    }
}

/// Handlers are invoked in registration order: registering the handlers
/// `hs`, in that order, leaves the subscription list for `e` at what it was
/// followed by `hs`, in that order — and a dispatch of `e` walks that list
/// front to back. On a fresh bus the list for `e` is exactly `hs`.
pub proof fn lemma_registration_order(m: Map<Seq<char>, Seq<Handler>>, e: Seq<char>, hs: Seq<Handler>)
    ensures
        handlers_for(register_all(m, e, hs), e) == handlers_for(m, e) + hs,
    decreases hs.len(),
{
    if hs.len() == 0 {
        assert(handlers_for(m, e) + hs =~= handlers_for(m, e));
    } else {
        lemma_registration_order(m, e, hs.drop_last());
        assert(handlers_for(register_all(m, e, hs), e) == (handlers_for(m, e)
            + hs.drop_last()).push(hs.last()));
        assert((handlers_for(m, e) + hs.drop_last()).push(hs.last()) =~= handlers_for(m, e) + hs);
    }
}

/// A registration for one event reaches no other: the subscription list of
/// every other event is left exactly as it was.
pub proof fn lemma_registration_isolated(
    m: Map<Seq<char>, Seq<Handler>>,
    e: Seq<char>,
    h: Handler,
    other: Seq<char>,
)
    requires
        other != e,
    ensures
        handlers_for(register_spec(m, e, h), other) == handlers_for(m, other),
{
}

/// Publishing an event nobody subscribed to is a no-op: its dispatch has no
/// handler to invoke, and no error arises anywhere on the way.
pub proof fn lemma_no_subscribers_no_invocation(m: Map<Seq<char>, Seq<Handler>>, e: Seq<char>)
    requires
        !m.contains_key(e),
    ensures
        handlers_for(m, e) == Seq::<Handler>::empty(),
{
}

/// Registering the same handler twice for the same event keeps both
/// registrations: the handler ends the subscription list twice, so a
/// matching dispatch invokes it twice.
pub proof fn lemma_duplicate_registration(m: Map<Seq<char>, Seq<Handler>>, e: Seq<char>, h: Handler)
    ensures
        handlers_for(register_spec(register_spec(m, e, h), e, h), e) == handlers_for(
            m,
            e,
        ).push(h).push(h),
{
}

/// Messages are delivered in publish order: two messages accepted by the
/// queue, in that order, stand behind everything already queued, with the
/// first before the second — and dispatch drains the queue front to back,
/// finishing every handler of one message before starting the next. A
/// message the full queue dropped is never delivered at all, so the order of
/// the delivered messages is still the order of their publishes.
pub proof fn lemma_publish_order(q: Seq<MessageView>, m1: MessageView, m2: MessageView)
    requires
        q.len() + 2 <= CHANNEL_CAPACITY,
    ensures
        send_spec(send_spec(q, m1), m2).len() == q.len() + 2,
        send_spec(send_spec(q, m1), m2)[q.len() as int] == m1,
        send_spec(send_spec(q, m1), m2)[q.len() as int + 1] == m2,
        forall|i: int| 0 <= i < q.len() ==> send_spec(send_spec(q, m1), m2)[i] == q[i],
{
}

/// An accepted send never disturbs what is already queued: the old queue is
/// a prefix of the new one, whether or not the new message was accepted.
pub proof fn lemma_send_keeps_queue(q: Seq<MessageView>, m: MessageView)
    ensures
        send_spec(q, m).take(q.len() as int) == q,
        q.len() <= send_spec(q, m).len(),
{
    assert(send_spec(q, m).take(q.len() as int) =~= q);
}

} // verus!
