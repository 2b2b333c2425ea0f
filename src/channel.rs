use vstd::prelude::*;
use crossbeam_channel::{Receiver, Sender};
use crate::event::AuditLog;

verus! {

/// crossbeam's sending handle, carried through unopened.
#[verifier::external_type_specification]
#[verifier::external_body]
#[verifier::reject_recursive_types(T)]
pub struct ExSender<T>(crossbeam_channel::Sender<T>);

/// crossbeam's receiving handle, carried through unopened.
#[verifier::external_type_specification]
#[verifier::external_body]
#[verifier::reject_recursive_types(T)]
pub struct ExReceiver<T>(crossbeam_channel::Receiver<T>);

/// What crossbeam_channel::Receiver::capacity reports for the channel behind
/// `rx`: its bound, or `None` for a channel without one.
pub uninterp spec fn capacity_of(rx: Receiver<AuditLog>) -> Option<usize>;

/// Relies on crossbeam_channel::unbounded: a fresh channel without a
/// capacity bound, as its sending and its receiving handle; its receiver's
/// `capacity` reports `None`.
#[verifier::external_body]
fn unbounded_channel() -> (r: (Sender<AuditLog>, Receiver<AuditLog>))
    ensures
        capacity_of(r.1) == None::<usize>,
{
    crossbeam_channel::unbounded()
}

/// Relies on crossbeam_channel::Sender::send: it fails only when every
/// receiver is gone, and then hands the message back unchanged.
#[verifier::external_body]
fn channel_send<T>(tx: &Sender<T>, msg: T) -> (r: Result<(), T>)
    ensures
        r matches Err(m) ==> m == msg,
{
    tx.send(msg).map_err(|e| e.0)
}

/// Relies on crossbeam_channel::Receiver::recv: it blocks until a message
/// arrives, and fails only once the channel is empty and every sender is gone.
#[verifier::external_body]
fn channel_recv<T>(rx: &Receiver<T>) -> (r: Option<T>) {
    rx.recv().ok()
}

/// The consumer learned that the producing side is shut down and that no
/// event is left: a terminal signal, not a transient error.
#[derive(Debug, Clone, Copy, PartialEq, Eq, Structural)]
pub struct ChannelClosed;

/// Hands `event` to the consumer behind `tx`. With an unbounded channel this
/// never blocks; the one failure is a consumer that is gone, and then the
/// event comes back to the caller untouched.
pub fn enqueue_on(tx: &Sender<AuditLog>, event: AuditLog) -> (r: Result<(), AuditLog>)
    ensures
        r matches Err(e) ==> e == event,
{
    channel_send(tx, event)
}

/// Takes the next event from `rx`, blocking until one is there. Fails with
/// `ChannelClosed` once the producers are gone and the queue is empty.
pub fn dequeue_from(rx: &Receiver<AuditLog>) -> (r: Result<AuditLog, ChannelClosed>) {
    match channel_recv(rx) {
        Some(event) => Ok(event),
        None => Err(ChannelClosed),
    }
}

/// The hand-off between the producers of audit events and the one worker
/// that consumes them: a first-in first-out queue of unlimited capacity.
pub struct AuditChannel {
    pub audit_tx: Sender<AuditLog>,
    pub audit_rx: Receiver<AuditLog>,
}

impl AuditChannel {
    /// A fresh, empty channel of unbounded capacity.
    pub fn new() -> (r: AuditChannel)
        ensures
            capacity_of(r.audit_rx) == None::<usize>,
    {
        let (tx, rx) = unbounded_channel();
        AuditChannel { audit_tx: tx, audit_rx: rx }
    }

    /// Queues `event` for the consumer; see `enqueue_on`.
    pub fn enqueue(&self, event: AuditLog) -> (r: Result<(), AuditLog>)
        ensures
            r matches Err(e) ==> e == event,
    {
        enqueue_on(&self.audit_tx, event)
    }

    /// Takes the next queued event; see `dequeue_from`.
    pub fn dequeue(&self) -> (r: Result<AuditLog, ChannelClosed>) {
        dequeue_from(&self.audit_rx)
    }

    /// Splits the channel into the producers' handle and the consumer's,
    /// so that the worker can own the consuming end alone.
    pub fn into_parts(self) -> (r: (Sender<AuditLog>, Receiver<AuditLog>))
        ensures
            r.0 == self.audit_tx,
            r.1 == self.audit_rx,
    {
        (self.audit_tx, self.audit_rx)
    }
}

} // verus!
