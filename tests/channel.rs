use audit_channel::channel::{dequeue_from, enqueue_on, AuditChannel, ChannelClosed};
use audit_channel::event::AuditLog;
use audit_channel::worker::{receive_event, WorkerEvent};

fn ev(t: i64, m: &str) -> AuditLog {
    AuditLog::new(t, m.to_string())
}

#[test]
fn events_come_out_in_enqueue_order() {
    let ch = AuditChannel::new();
    for i in 0..5 {
        assert!(ch.enqueue(ev(i, "e")).is_ok());
    }
    for i in 0..5 {
        assert_eq!(ch.dequeue().unwrap().timestamp, i);
    }
}

#[test]
fn each_producer_keeps_its_own_order() {
    let (tx, rx) = AuditChannel::new().into_parts();
    let a = tx.clone();
    let b = tx.clone();
    enqueue_on(&a, ev(1, "a")).unwrap();
    enqueue_on(&b, ev(1, "b")).unwrap();
    enqueue_on(&b, ev(2, "b")).unwrap();
    enqueue_on(&a, ev(2, "a")).unwrap();
    enqueue_on(&a, ev(3, "a")).unwrap();
    let mut seen_a = Vec::new();
    let mut seen_b = Vec::new();
    for _ in 0..5 {
        let e = dequeue_from(&rx).unwrap();
        if e.message == "a" {
            seen_a.push(e.timestamp);
        } else {
            seen_b.push(e.timestamp);
        }
    }
    assert_eq!(seen_a, vec![1, 2, 3]);
    assert_eq!(seen_b, vec![1, 2]);
}

#[test]
fn enqueue_never_waits_for_a_consumer() {
    let ch = AuditChannel::new();
    for i in 0..10_000 {
        assert!(ch.enqueue(ev(i, "burst")).is_ok());
    }
    assert_eq!(ch.dequeue().unwrap().timestamp, 0);
}

#[test]
fn duplicates_are_kept() {
    let ch = AuditChannel::new();
    ch.enqueue(ev(3, "same")).unwrap();
    ch.enqueue(ev(3, "same")).unwrap();
    assert_eq!(ch.dequeue().unwrap(), ev(3, "same"));
    assert_eq!(ch.dequeue().unwrap(), ev(3, "same"));
}

#[test]
fn closed_after_queue_drains() {
    let (tx, rx) = AuditChannel::new().into_parts();
    enqueue_on(&tx, ev(1, "last")).unwrap();
    drop(tx);
    assert_eq!(dequeue_from(&rx).unwrap().message, "last");
    assert_eq!(dequeue_from(&rx), Err(ChannelClosed));
}

#[test]
fn enqueue_without_consumer_hands_event_back() {
    let (tx, rx) = AuditChannel::new().into_parts();
    drop(rx);
    assert_eq!(enqueue_on(&tx, ev(9, "orphan")), Err(ev(9, "orphan")));
}

#[test]
fn receive_event_reports_event_then_closing() {
    let (tx, rx) = AuditChannel::new().into_parts();
    enqueue_on(&tx, ev(4, "m")).unwrap();
    drop(tx);
    assert_eq!(receive_event(&rx), WorkerEvent::Received(ev(4, "m")));
    assert_eq!(receive_event(&rx), WorkerEvent::ChannelClosed);
}

#[test]
fn new_channel_is_unbounded() {
    let ch = AuditChannel::new();
    assert_eq!(ch.audit_rx.capacity(), None);
    assert_eq!(ch.audit_tx.capacity(), None);
}
