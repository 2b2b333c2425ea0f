//! Audit-log shipping: an unbounded event channel and the decision logic of
//! the worker that forwards each event to a remote log sink.

/// Audit events and the records the sink takes.
pub mod event;
/// The event channel between producers and the worker.
pub mod channel;
/// The worker's configuration and its state machine.
pub mod worker;
/// Runs of the state machine and the laws they obey.
pub mod session;
