use audit_channel::event::{AuditLog, RemoteLogRecord};
use audit_channel::worker::{
    dispatch_outcome, ConfigurationError, ForwardingWorker, Phase, ShutdownPolicy, WorkerAction,
    WorkerConfig, WorkerEvent,
};

fn ev(t: i64, m: &str) -> AuditLog {
    AuditLog::new(t, m.to_string())
}

fn record(t: i64, m: &str) -> RemoteLogRecord {
    RemoteLogRecord {
        message: m.to_string(),
        timestamp: t,
        log_group_name: "g".to_string(),
        log_stream_name: "s".to_string(),
    }
}

fn worker(interval: u64, policy: ShutdownPolicy) -> ForwardingWorker {
    ForwardingWorker::configure("g".to_string(), "s".to_string(), interval, policy).unwrap()
}

fn started(interval: u64, policy: ShutdownPolicy) -> ForwardingWorker {
    let mut w = worker(interval, policy);
    assert_eq!(w.step(WorkerEvent::Start), WorkerAction::Dequeue);
    w
}

#[test]
fn new_worker_is_idle() {
    let w = worker(50, ShutdownPolicy::Drain);
    assert_eq!(w.phase, Phase::Idle);
    assert!(!w.stop_requested);
    assert_eq!((w.delivered, w.failed), (0, 0));
    assert!(!w.is_stopped());
}

#[test]
fn configure_refuses_empty_identifiers() {
    let r = ForwardingWorker::configure(String::new(), "s".to_string(), 50, ShutdownPolicy::Drain);
    assert_eq!(r, Err(ConfigurationError::EmptyLogGroupName));
    let r = ForwardingWorker::configure("g".to_string(), String::new(), 50, ShutdownPolicy::Drain);
    assert_eq!(r, Err(ConfigurationError::EmptyLogStreamName));
}

#[test]
fn three_queued_events_are_paced() {
    let mut w = started(50, ShutdownPolicy::Drain);
    let mut actions = Vec::new();
    for i in 1..=3 {
        actions.push(w.step(WorkerEvent::Received(ev(i, "e"))));
        actions.push(w.step(dispatch_outcome(true)));
        actions.push(w.step(WorkerEvent::PauseElapsed));
    }
    assert_eq!(
        actions,
        vec![
            WorkerAction::Send(record(1, "e")),
            WorkerAction::Pause(50),
            WorkerAction::Dequeue,
            WorkerAction::Send(record(2, "e")),
            WorkerAction::Pause(50),
            WorkerAction::Dequeue,
            WorkerAction::Send(record(3, "e")),
            WorkerAction::Pause(50),
            WorkerAction::Dequeue,
        ]
    );
    assert_eq!(w.delivered, 3);
}

#[test]
fn failure_on_one_event_does_not_stop_the_next() {
    let mut w = started(10, ShutdownPolicy::Drain);
    assert_eq!(w.step(WorkerEvent::Received(ev(1, "a"))), WorkerAction::Send(record(1, "a")));
    assert_eq!(w.step(dispatch_outcome(false)), WorkerAction::Pause(10));
    assert_eq!(w.step(WorkerEvent::PauseElapsed), WorkerAction::Dequeue);
    assert_eq!(w.step(WorkerEvent::Received(ev(2, "b"))), WorkerAction::Send(record(2, "b")));
    assert_eq!(w.step(WorkerEvent::SendSucceeded), WorkerAction::Pause(10));
    assert_eq!((w.delivered, w.failed), (1, 1));
}

#[test]
fn failed_event_is_not_retried() {
    let mut w = started(10, ShutdownPolicy::Drain);
    w.step(WorkerEvent::Received(ev(1, "a")));
    w.step(WorkerEvent::SendFailed);
    // the next thing asked for after the pause is a fresh event, not a resend
    assert_eq!(w.step(WorkerEvent::PauseElapsed), WorkerAction::Dequeue);
}

#[test]
fn stop_then_closed_channel_ends_sending() {
    let mut w = started(50, ShutdownPolicy::Drain);
    assert_eq!(w.step(WorkerEvent::StopRequested), WorkerAction::Dequeue);
    assert_eq!(w.step(WorkerEvent::ChannelClosed), WorkerAction::Exit);
    assert!(w.is_stopped());
    assert_eq!(w.step(WorkerEvent::Received(ev(5, "late"))), WorkerAction::Nothing);
    assert_eq!(w.step(WorkerEvent::Start), WorkerAction::Nothing);
    assert!(w.is_stopped());
}

#[test]
fn drain_keeps_forwarding_after_stop() {
    let mut w = started(50, ShutdownPolicy::Drain);
    w.step(WorkerEvent::StopRequested);
    assert_eq!(w.step(WorkerEvent::Received(ev(1, "buffered"))), WorkerAction::Send(record(1, "buffered")));
    assert_eq!(w.step(WorkerEvent::SendSucceeded), WorkerAction::Pause(50));
}

#[test]
fn discard_lets_in_flight_dispatch_finish_then_exits() {
    let mut w = started(50, ShutdownPolicy::Discard);
    assert_eq!(w.step(WorkerEvent::Received(ev(1, "x"))), WorkerAction::Send(record(1, "x")));
    assert_eq!(w.step(WorkerEvent::StopRequested), WorkerAction::Nothing);
    assert_eq!(w.phase, Phase::Dispatching);
    assert_eq!(w.step(WorkerEvent::SendSucceeded), WorkerAction::Exit);
    assert!(w.is_stopped());
    assert_eq!(w.delivered, 1);
}

#[test]
fn discard_while_waiting_exits_at_once() {
    let mut w = started(50, ShutdownPolicy::Discard);
    assert_eq!(w.step(WorkerEvent::StopRequested), WorkerAction::Exit);
    assert!(w.is_stopped());
}

#[test]
fn stop_while_pausing_keeps_the_pause_under_drain() {
    let mut w = started(20, ShutdownPolicy::Drain);
    w.step(WorkerEvent::Received(ev(1, "a")));
    w.step(WorkerEvent::SendSucceeded);
    assert_eq!(w.step(WorkerEvent::StopRequested), WorkerAction::Pause(20));
    assert_eq!(w.step(WorkerEvent::PauseElapsed), WorkerAction::Dequeue);
}

#[test]
fn stop_before_start_stops() {
    let mut w = worker(50, ShutdownPolicy::Drain);
    assert_eq!(w.step(WorkerEvent::StopRequested), WorkerAction::Exit);
    assert!(w.is_stopped());
    assert_eq!(w.step(WorkerEvent::Start), WorkerAction::Nothing);
}

#[test]
fn events_out_of_phase_change_nothing() {
    let mut w = worker(50, ShutdownPolicy::Drain);
    let before = w.clone();
    assert_eq!(w.step(WorkerEvent::PauseElapsed), WorkerAction::Nothing);
    assert_eq!(w.step(WorkerEvent::Received(ev(1, "early"))), WorkerAction::Nothing);
    assert_eq!(w, before);
    w.step(WorkerEvent::Start);
    assert_eq!(w.step(WorkerEvent::SendSucceeded), WorkerAction::Nothing);
    assert_eq!(w.delivered, 0);
}

#[test]
fn counters_saturate() {
    let mut w = started(0, ShutdownPolicy::Drain);
    w.delivered = u64::MAX;
    w.failed = u64::MAX;
    w.step(WorkerEvent::Received(ev(1, "a")));
    assert_eq!(w.step(WorkerEvent::SendSucceeded), WorkerAction::Pause(0));
    w.step(WorkerEvent::PauseElapsed);
    w.step(WorkerEvent::Received(ev(2, "b")));
    w.step(WorkerEvent::SendFailed);
    assert_eq!((w.delivered, w.failed), (u64::MAX, u64::MAX));
}

#[test]
fn dispatch_outcome_maps_acceptance() {
    assert_eq!(dispatch_outcome(true), WorkerEvent::SendSucceeded);
    assert_eq!(dispatch_outcome(false), WorkerEvent::SendFailed);
}

#[test]
fn malformed_destination_refuses_to_start() {
    for (group, stream) in [("", "s"), ("g", ""), ("", "")] {
        let mut w = ForwardingWorker {
            config: WorkerConfig {
                log_group_name: group.to_string(),
                log_stream_name: stream.to_string(),
                dispatch_interval_ms: 50,
                shutdown_policy: ShutdownPolicy::Drain,
            },
            phase: Phase::Idle,
            stop_requested: false,
            delivered: 0,
            failed: 0,
        };
        assert_eq!(w.step(WorkerEvent::Start), WorkerAction::Exit);
        assert!(w.is_stopped());
        assert_eq!(w.step(WorkerEvent::Received(ev(1, "x"))), WorkerAction::Nothing);
    }
}
