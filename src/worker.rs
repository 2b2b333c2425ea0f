use vstd::prelude::*;
use crossbeam_channel::Receiver;
use crate::channel::dequeue_from;
use crate::event::{AuditLog, RemoteLogRecord, record_of};

verus! {

/// What the worker does with events still queued once a stop is requested.
#[derive(Debug, Clone, Copy, PartialEq, Eq, Structural)]
pub enum ShutdownPolicy {
    /// Keep forwarding until the channel reports that it is closed.
    Drain,
    /// Let the dispatch in flight finish, then stop without dequeuing more.
    Discard,
}

/// Why a worker configuration was refused.
#[derive(Debug, Clone, Copy, PartialEq, Eq, Structural)]
pub enum ConfigurationError {
    EmptyLogGroupName,
    EmptyLogStreamName,
}

/// The worker's fixed configuration: where records go and how dispatches
/// are paced. It does not change for the worker's lifetime.
#[derive(Debug, Clone, PartialEq, Eq)]
pub struct WorkerConfig {
    pub log_group_name: String,
    pub log_stream_name: String,
    pub dispatch_interval_ms: u64,
    pub shutdown_policy: ShutdownPolicy,
}

impl WorkerConfig {
    /// Both destination identifiers are present.
    pub open spec fn valid(&self) -> bool {
        self.log_group_name@.len() > 0 && self.log_stream_name@.len() > 0
    }

    /// Builds a configuration; an empty log group or log stream name is
    /// refused, the group's first.
    pub fn new(
        log_group_name: String,
        log_stream_name: String,
        dispatch_interval_ms: u64,
        shutdown_policy: ShutdownPolicy,
    ) -> (r: Result<WorkerConfig, ConfigurationError>)
        ensures
            log_group_name@.len() == 0 ==> r == Err::<WorkerConfig, _>(
                ConfigurationError::EmptyLogGroupName,
            ),
            log_group_name@.len() > 0 && log_stream_name@.len() == 0 ==> r == Err::<WorkerConfig, _>(
                ConfigurationError::EmptyLogStreamName,
            ),
            log_group_name@.len() > 0 && log_stream_name@.len() > 0 ==> r == Ok::<_, ConfigurationError>(
                (WorkerConfig { log_group_name, log_stream_name, dispatch_interval_ms, shutdown_policy }),
            ),
            r matches Ok(c) ==> c.valid(),
    {
        if log_group_name.as_str().is_empty() {
            Err(ConfigurationError::EmptyLogGroupName)
        } else if log_stream_name.as_str().is_empty() {
            Err(ConfigurationError::EmptyLogStreamName)
        } else {
            Ok(WorkerConfig { log_group_name, log_stream_name, dispatch_interval_ms, shutdown_policy })
        }
    }

    /// The record that carries `event` to this configuration's destination.
    pub fn to_record(&self, event: AuditLog) -> (r: RemoteLogRecord)
        ensures
            r == record_of(event, self.log_group_name, self.log_stream_name),
    {
        event.into_record(&self.log_group_name, &self.log_stream_name)
    }
}


/// Where the worker stands: `Idle` until started, `Waiting` on the channel,
/// `Dispatching` a record to the sink, `Pausing` between dispatches, and
/// `Stopped` for good.
#[derive(Debug, Clone, Copy, PartialEq, Eq, Structural)]
pub enum Phase {
    Idle,
    Waiting,
    Dispatching,
    Pausing,
    Stopped,
}

/// What the world tells the worker: it was started, the channel handed over
/// an event or reported closed, the sink accepted or refused a record, the
/// pause ran out, or a stop was requested.
#[derive(Debug, Clone, PartialEq, Eq)]
pub enum WorkerEvent {
    Start,
    Received(AuditLog),
    ChannelClosed,
    SendSucceeded,
    SendFailed,
    PauseElapsed,
    StopRequested,
}

/// What the worker asks to be done next: take the next event off the
/// channel, hand a record to the sink, sleep for the given milliseconds,
/// end its thread of execution, or nothing.
#[derive(Debug, Clone, PartialEq, Eq)]
pub enum WorkerAction {
    Dequeue,
    Send(RemoteLogRecord),
    Pause(u64),
    Exit,
    Nothing,
}

/// The forwarding worker's decisions. Whoever runs it performs each action
/// returned by `step` and reports the outcome as the next event.
#[derive(Debug, Clone, PartialEq, Eq)]
pub struct ForwardingWorker {
    pub config: WorkerConfig,
    pub phase: Phase,
    pub stop_requested: bool,
    /// Records the sink accepted (saturating).
    pub delivered: u64,
    /// Records the sink refused; each was dropped, not retried (saturating).
    pub failed: u64,
}

/// One more than `n`, held at the largest `u64`.
pub open spec fn bump(n: u64) -> u64 {
    if n < u64::MAX { (n + 1) as u64 } else { n }
}

/// A stop was requested and queued events are to be left behind.
pub open spec fn discards(w: ForwardingWorker) -> bool {
    w.stop_requested && w.config.shutdown_policy is Discard
}

/// `w` stopped for good.
pub open spec fn stopped(w: ForwardingWorker) -> ForwardingWorker {
    ForwardingWorker { phase: Phase::Stopped, ..w }
}

/// `w` in phase `p`.
pub open spec fn in_phase(w: ForwardingWorker, p: Phase) -> ForwardingWorker {
    ForwardingWorker { phase: p, ..w }
}

/// After a dispatch, with the counters already updated: stop if queued
/// events are to be discarded, else pause for the configured interval.
pub open spec fn after_dispatch(w: ForwardingWorker) -> (ForwardingWorker, WorkerAction) {
    if discards(w) {
        (stopped(w), WorkerAction::Exit)
    } else {
        (in_phase(w, Phase::Pausing), WorkerAction::Pause(w.config.dispatch_interval_ms))
    }
}

/// The reaction to a stop request in a phase where nothing is in flight:
/// leave at once under `Discard`, else carry on with `pending`.
pub open spec fn on_stop(w: ForwardingWorker, pending: WorkerAction) -> (ForwardingWorker, WorkerAction) {
    let w = ForwardingWorker { stop_requested: true, ..w };
    if w.config.shutdown_policy is Discard {
        (stopped(w), WorkerAction::Exit)
    } else {
        (w, pending)
    }
}

/// The worker's transition: its next state and action on event `e`. A
/// worker whose destination identifiers are malformed refuses to start and
/// stops instead. An event that does not fit the phase changes nothing.
pub open spec fn next(w: ForwardingWorker, e: WorkerEvent) -> (ForwardingWorker, WorkerAction) {
    match w.phase {
        Phase::Idle => match e {
            WorkerEvent::Start => if w.config.valid() {
                (in_phase(w, Phase::Waiting), WorkerAction::Dequeue)
            } else {
                (stopped(w), WorkerAction::Exit)
            },
            WorkerEvent::StopRequested => (
                stopped(ForwardingWorker { stop_requested: true, ..w }),
                WorkerAction::Exit,
            ),
            _ => (w, WorkerAction::Nothing),
        },
        Phase::Waiting => match e {
            WorkerEvent::Received(ev) => (
                in_phase(w, Phase::Dispatching),
                WorkerAction::Send(record_of(ev, w.config.log_group_name, w.config.log_stream_name)),
            ),
            WorkerEvent::ChannelClosed => (stopped(w), WorkerAction::Exit),
            WorkerEvent::StopRequested => on_stop(w, WorkerAction::Dequeue),
            _ => (w, WorkerAction::Nothing),
        },
        Phase::Dispatching => match e {
            WorkerEvent::SendSucceeded => after_dispatch(ForwardingWorker { delivered: bump(w.delivered), ..w }),
            WorkerEvent::SendFailed => after_dispatch(ForwardingWorker { failed: bump(w.failed), ..w }),
            WorkerEvent::StopRequested => (ForwardingWorker { stop_requested: true, ..w }, WorkerAction::Nothing),
            _ => (w, WorkerAction::Nothing),
        },
        Phase::Pausing => match e {
            WorkerEvent::PauseElapsed => (in_phase(w, Phase::Waiting), WorkerAction::Dequeue),
            WorkerEvent::StopRequested => on_stop(w, WorkerAction::Pause(w.config.dispatch_interval_ms)),
            _ => (w, WorkerAction::Nothing),
        },
        Phase::Stopped => (w, WorkerAction::Nothing),
    }
}

/// Performs a `Dequeue`: blocks on `rx` and reports what the channel gave,
/// an event or its closing.
pub fn receive_event(rx: &Receiver<AuditLog>) -> (r: WorkerEvent)
    ensures
        r is Received || r is ChannelClosed,
{
    match dequeue_from(rx) {
        Ok(event) => WorkerEvent::Received(event),
        Err(_) => WorkerEvent::ChannelClosed,
    }
}

/// The sink's answer to one dispatch.
pub open spec fn outcome(ok: bool) -> WorkerEvent {
    if ok {
        WorkerEvent::SendSucceeded
    } else {
        WorkerEvent::SendFailed
    }
}

/// The event that reports a dispatch the sink accepted or refused.
pub fn dispatch_outcome(accepted: bool) -> (r: WorkerEvent)
    ensures
        r == outcome(accepted),
{
    if accepted {
        WorkerEvent::SendSucceeded
    } else {
        WorkerEvent::SendFailed
    }
}

fn saturating_bump(n: u64) -> (r: u64)
    ensures
        r == bump(n),
{
    if n < u64::MAX {
        n + 1
    } else {
        n
    }
}

impl ForwardingWorker {
    /// The destination identifiers are present, and a worker that discards
    /// what is queued once stopped is never left waiting, pausing or idle:
    /// it is finishing a dispatch or has stopped.
    pub open spec fn wf(&self) -> bool {
        &&& self.config.valid()
        &&& discards(*self) ==> (self.phase is Dispatching || self.phase is Stopped)
    }

    /// A worker that has not started yet, on a configuration whose
    /// destination identifiers are present.
    pub fn new(config: WorkerConfig) -> (r: ForwardingWorker)
        requires
            config.valid(),
        ensures
            r.config == config,
            r.phase is Idle,
            !r.stop_requested,
            r.delivered == 0,
            r.failed == 0,
            r.wf(),
    {
        ForwardingWorker { config, phase: Phase::Idle, stop_requested: false, delivered: 0, failed: 0 }
    }

    /// Checks the destination identifiers and builds an idle worker on them.
    pub fn configure(
        log_group_name: String,
        log_stream_name: String,
        dispatch_interval_ms: u64,
        shutdown_policy: ShutdownPolicy,
    ) -> (r: Result<ForwardingWorker, ConfigurationError>)
        ensures
            log_group_name@.len() == 0 ==> r == Err::<ForwardingWorker, _>(
                ConfigurationError::EmptyLogGroupName,
            ),
            log_group_name@.len() > 0 && log_stream_name@.len() == 0 ==> r == Err::<ForwardingWorker, _>(
                ConfigurationError::EmptyLogStreamName,
            ),
            log_group_name@.len() > 0 && log_stream_name@.len() > 0 ==> r == Ok::<_, ConfigurationError>(
                (ForwardingWorker {
                    config: WorkerConfig { log_group_name, log_stream_name, dispatch_interval_ms, shutdown_policy },
                    phase: Phase::Idle,
                    stop_requested: false,
                    delivered: 0,
                    failed: 0,
                }),
            ),
    {
        match WorkerConfig::new(log_group_name, log_stream_name, dispatch_interval_ms, shutdown_policy) {
            Ok(config) => Ok(ForwardingWorker::new(config)),
            Err(e) => Err(e),
        }
    }

    pub fn is_stopped(&self) -> (r: bool)
        ensures
            r == (self.phase is Stopped),
    {
        matches!(self.phase, Phase::Stopped)
    }

    fn finish_dispatch(&mut self) -> (r: WorkerAction)
        requires
            old(self).phase is Dispatching,
        ensures
            (*final(self), r) == after_dispatch(*old(self)),
    {
        if self.stop_requested && matches!(self.config.shutdown_policy, ShutdownPolicy::Discard) {
            self.phase = Phase::Stopped;
            WorkerAction::Exit
        } else {
            self.phase = Phase::Pausing;
            WorkerAction::Pause(self.config.dispatch_interval_ms)
        }
    }

    fn request_stop(&mut self, pending: WorkerAction) -> (r: WorkerAction)
        ensures
            (*final(self), r) == on_stop(*old(self), pending),
    {
        self.stop_requested = true;
        if matches!(self.config.shutdown_policy, ShutdownPolicy::Discard) {
            self.phase = Phase::Stopped;
            WorkerAction::Exit
        } else {
            pending
        }
    }

    /// Takes in event `e` and returns what is to be done next.
    pub fn step(&mut self, e: WorkerEvent) -> (r: WorkerAction)
        ensures
            (*final(self), r) == next(*old(self), e),
            old(self).wf() ==> final(self).wf(),
    {
        match self.phase {
            Phase::Idle => match e {
                WorkerEvent::Start => {
                    if self.config.log_group_name.as_str().is_empty()
                        || self.config.log_stream_name.as_str().is_empty() {
                        self.phase = Phase::Stopped;
                        WorkerAction::Exit
                    } else {
                        self.phase = Phase::Waiting;
                        WorkerAction::Dequeue
                    }
                },
                WorkerEvent::StopRequested => {
                    self.stop_requested = true;
                    self.phase = Phase::Stopped;
                    WorkerAction::Exit
                },
                _ => WorkerAction::Nothing,
            },
            Phase::Waiting => match e {
                WorkerEvent::Received(ev) => {
                    let record = self.config.to_record(ev);
                    self.phase = Phase::Dispatching;
                    WorkerAction::Send(record)
                },
                WorkerEvent::ChannelClosed => {
                    self.phase = Phase::Stopped;
                    WorkerAction::Exit
                },
                WorkerEvent::StopRequested => self.request_stop(WorkerAction::Dequeue),
                _ => WorkerAction::Nothing,
            },
            Phase::Dispatching => match e {
                WorkerEvent::SendSucceeded => {
                    self.delivered = saturating_bump(self.delivered);
                    self.finish_dispatch()
                },
                WorkerEvent::SendFailed => {
                    self.failed = saturating_bump(self.failed);
                    self.finish_dispatch()
                },
                WorkerEvent::StopRequested => {
                    self.stop_requested = true;
                    WorkerAction::Nothing
                },
                _ => WorkerAction::Nothing,
            },
            Phase::Pausing => match e {
                WorkerEvent::PauseElapsed => {
                    self.phase = Phase::Waiting;
                    WorkerAction::Dequeue
                },
                WorkerEvent::StopRequested => {
                    let interval = self.config.dispatch_interval_ms;
                    self.request_stop(WorkerAction::Pause(interval))
                },
                _ => WorkerAction::Nothing,
            },
            Phase::Stopped => WorkerAction::Nothing,
        }
    }
}

} // verus!
