use event_bus::Handler;
use event_bus::Message;
use event_bus::bus::Bus;
use event_bus::channel::Channel;
use event_bus::dispatch::CallOutcome;
use event_bus::registry::Registry;

#[test]
fn ping_scenario_single_handler() {
    let mut bus = Bus::new();
    let h = Handler { id: 10 };
    bus.subscribe(String::from("ping"), h);
    bus.publish(String::from("ping"), vec![1, 2, 3]);

    let mut d = bus.dispatch_next().expect("one message is pending");
    assert_eq!(d.event().as_str(), "ping");
    assert_eq!(d.args(), &vec![1, 2, 3]);
    assert_eq!(d.next_handler(), Some(h));
    assert_eq!(d.next_handler(), None);
    assert!(bus.dispatch_next().is_none());
}

#[test]
fn unregistered_event_is_noop() {
    let mut bus = Bus::new();
    bus.publish(String::from("unregistered_event"), vec![]);

    let mut d = bus.dispatch_next().expect("the message is still delivered");
    assert_eq!(d.remaining_count(), 0);
    assert_eq!(d.next_handler(), None);
}

#[test]
fn two_handlers_invoked_in_subscription_order() {
    let mut bus = Bus::new();
    let h1 = Handler { id: 1 };
    let h2 = Handler { id: 2 };
    bus.subscribe(String::from("e"), h1);
    bus.subscribe(String::from("e"), h2);
    bus.publish(String::from("e"), vec![]);

    let mut d = bus.dispatch_next().expect("one message is pending");
    assert_eq!(d.next_handler(), Some(h1));
    assert_eq!(d.next_handler(), Some(h2));
    assert_eq!(d.next_handler(), None);
}

#[test]
fn messages_delivered_in_publish_order() {
    let mut bus = Bus::new();
    let h = Handler { id: 5 };
    bus.subscribe(String::from("e"), h);
    bus.publish(String::from("e"), vec![1]);
    bus.publish(String::from("e"), vec![2]);

    let mut first = bus.dispatch_next().expect("two messages are pending");
    assert_eq!(first.args(), &vec![1]);
    assert_eq!(first.next_handler(), Some(h));
    assert_eq!(first.next_handler(), None);

    let mut second = bus.dispatch_next().expect("one message is left");
    assert_eq!(second.args(), &vec![2]);
    assert_eq!(second.next_handler(), Some(h));
    assert_eq!(second.next_handler(), None);
}

#[test]
fn failed_handler_stops_nothing() {
    let mut bus = Bus::new();
    let h1 = Handler { id: 1 };
    let h2 = Handler { id: 2 };
    bus.subscribe(String::from("e"), h1);
    bus.subscribe(String::from("e"), h2);
    bus.publish(String::from("e"), vec![]);
    bus.publish(String::from("e"), vec![]);

    let mut d = bus.dispatch_next().expect("two messages are pending");
    assert_eq!(d.next_handler(), Some(h1));
    d.note_outcome(CallOutcome::Failed);
    assert_eq!(d.next_handler(), Some(h2));
    d.note_outcome(CallOutcome::Completed);
    assert_eq!(d.next_handler(), None);

    let mut later = bus.dispatch_next().expect("the later message is unaffected");
    assert_eq!(later.next_handler(), Some(h1));
    later.note_outcome(CallOutcome::Failed);
    assert_eq!(later.next_handler(), Some(h2));
}

#[test]
fn duplicate_registration_invoked_twice() {
    let mut bus = Bus::new();
    let h = Handler { id: 9 };
    bus.subscribe(String::from("e"), h);
    bus.subscribe(String::from("e"), h);
    bus.publish(String::from("e"), vec![]);

    let mut d = bus.dispatch_next().expect("one message is pending");
    assert_eq!(d.next_handler(), Some(h));
    assert_eq!(d.next_handler(), Some(h));
    assert_eq!(d.next_handler(), None);
}

#[test]
fn dispatch_on_fresh_bus_is_none() {
    let mut bus = Bus::new();
    assert!(bus.dispatch_next().is_none());
    assert_eq!(bus.pending_len(), 0);
}

#[test]
fn late_subscriber_misses_dequeued_message() {
    let mut bus = Bus::new();
    let early = Handler { id: 1 };
    let late = Handler { id: 2 };
    bus.subscribe(String::from("e"), early);
    bus.publish(String::from("e"), vec![]);

    let mut d = bus.dispatch_next().expect("one message is pending");
    bus.subscribe(String::from("e"), late);
    assert_eq!(d.next_handler(), Some(early));
    assert_eq!(d.next_handler(), None);

    bus.publish(String::from("e"), vec![]);
    let mut d2 = bus.dispatch_next().expect("the next message sees both");
    assert_eq!(d2.next_handler(), Some(early));
    assert_eq!(d2.next_handler(), Some(late));
    assert_eq!(d2.next_handler(), None);
}

#[test]
fn event_names_are_case_sensitive() {
    let mut bus = Bus::new();
    bus.subscribe(String::from("ping"), Handler { id: 1 });
    bus.publish(String::from("Ping"), vec![]);

    let mut d = bus.dispatch_next().expect("the message is delivered");
    assert_eq!(d.next_handler(), None);
}

#[test]
fn full_queue_drops_publish_silently() {
    let mut bus = Bus::new();
    bus.subscribe(String::from("e"), Handler { id: 1 });
    for i in 0..1024u64 {
        bus.publish(String::from("e"), vec![i]);
    }
    assert_eq!(bus.pending_len(), 1024);
    bus.publish(String::from("e"), vec![9999]);
    assert_eq!(bus.pending_len(), 1024);

    let mut first = bus.dispatch_next().expect("the queue is full");
    assert_eq!(first.args(), &vec![0]);
    assert_eq!(first.next_handler(), Some(Handler { id: 1 }));
}

#[test]
fn channel_is_fifo_and_bounded() {
    let mut c = Channel::new();
    assert!(c.send(Message { event: String::from("a"), args: vec![1] }));
    assert!(c.send(Message { event: String::from("b"), args: vec![2] }));
    assert_eq!(c.len(), 2);

    let m1 = c.recv().expect("two messages queued");
    assert_eq!(m1.event.as_str(), "a");
    assert_eq!(m1.args, vec![1]);
    let m2 = c.recv().expect("one message left");
    assert_eq!(m2.event.as_str(), "b");
    assert_eq!(m2.args, vec![2]);
    assert!(c.recv().is_none());

    for i in 0..1024u64 {
        assert!(c.send(Message { event: String::from("e"), args: vec![i] }));
    }
    assert!(!c.send(Message { event: String::from("e"), args: vec![1024] }));
    assert_eq!(c.len(), 1024);
}

#[test]
fn registry_keeps_per_event_order() {
    let mut r = Registry::new();
    let h1 = Handler { id: 1 };
    let h2 = Handler { id: 2 };
    let h3 = Handler { id: 3 };
    r.register(String::from("a"), h1);
    r.register(String::from("b"), h2);
    r.register(String::from("a"), h3);

    assert_eq!(r.lookup(&String::from("a")), vec![h1, h3]);
    assert_eq!(r.lookup(&String::from("b")), vec![h2]);
    assert_eq!(r.lookup(&String::from("c")), Vec::<Handler>::new());
}
