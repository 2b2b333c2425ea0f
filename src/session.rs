use vstd::prelude::*;
use crate::event::{AuditLog, record_of};
use crate::worker::{ForwardingWorker, WorkerAction, WorkerConfig, WorkerEvent, Phase, next, discards, outcome};

verus! {

/// The actions that `w` returns, in order, when fed the events `es`.
pub open spec fn run(w: ForwardingWorker, es: Seq<WorkerEvent>) -> Seq<WorkerAction>
    decreases es.len(),
{
    if es.len() == 0 {
        Seq::empty()
    } else {
        let (w2, a) = next(w, es[0]);
        seq![a] + run(w2, es.drop_first())
    }
}

/// The state that `w` reaches when fed the events `es`.
pub open spec fn after(w: ForwardingWorker, es: Seq<WorkerEvent>) -> ForwardingWorker
    decreases es.len(),
{
    if es.len() == 0 {
        w
    } else {
        after(next(w, es[0]).0, es.drop_first())
    }
}

/// What a waiting worker hears while it forwards the events `evs`: each is
/// received, the sink answers as `oks` says, and the pause runs out.
pub open spec fn session(evs: Seq<AuditLog>, oks: Seq<bool>) -> Seq<WorkerEvent>
    decreases evs.len(),
{
    if evs.len() == 0 || oks.len() == 0 {
        Seq::empty()
    } else {
        seq![WorkerEvent::Received(evs[0]), outcome(oks[0]), WorkerEvent::PauseElapsed]
            + session(evs.drop_first(), oks.drop_first())
    }
}

/// What a worker configured by `c` does while it forwards `evs`: for each
/// event, in order, one dispatch of its record, one pause of the configured
/// interval, and one dequeue.
pub open spec fn session_actions(c: WorkerConfig, evs: Seq<AuditLog>) -> Seq<WorkerAction>
    decreases evs.len(),
{
    if evs.len() == 0 {
        Seq::empty()
    } else {
        seq![
            WorkerAction::Send(record_of(evs[0], c.log_group_name, c.log_stream_name)),
            WorkerAction::Pause(c.dispatch_interval_ms),
            WorkerAction::Dequeue,
        ] + session_actions(c, evs.drop_first())
    }
}

/// No action of `acts` from position `k` on is a dispatch.
pub open spec fn no_send_from(acts: Seq<WorkerAction>, k: int) -> bool {
    forall|i: int| k <= i < acts.len() ==> !(#[trigger] acts[i] is Send)
}

proof fn lemma_run_concat(w: ForwardingWorker, a: Seq<WorkerEvent>, b: Seq<WorkerEvent>)
    ensures
        run(w, a + b) == run(w, a) + run(after(w, a), b),
        after(w, a + b) == after(after(w, a), b),
    decreases a.len(),
{
    if a.len() == 0 {
        assert(a + b =~= b);
    } else {
        let w2 = next(w, a[0]).0;
        lemma_run_concat(w2, a.drop_first(), b);
        assert((a + b).drop_first() =~= a.drop_first() + b);
        assert((a + b)[0] == a[0]);
        assert(run(w, a + b) =~= run(w, a) + run(after(w, a), b));
    }
}

/// A well-formed waiting worker forwards every event it is handed,
/// once each and in the order received, whether the sink accepts or refuses
/// it; a pause of the configured interval follows every dispatch, and one
/// dequeue follows every pause. It ends waiting, with its configuration and
/// stop request as they were.
pub proof fn lemma_session_forwards_in_order(w: ForwardingWorker, evs: Seq<AuditLog>, oks: Seq<bool>)
    requires
        w.wf(),
        w.phase is Waiting,
        evs.len() == oks.len(),
    ensures
        run(w, session(evs, oks)) == session_actions(w.config, evs),
        after(w, session(evs, oks)).phase is Waiting,
        after(w, session(evs, oks)).config == w.config,
        after(w, session(evs, oks)).stop_requested == w.stop_requested,
        after(w, session(evs, oks)).wf(),
    decreases evs.len(),
{
    if evs.len() > 0 {
        assert(!discards(w));
        let cycle = seq![WorkerEvent::Received(evs[0]), outcome(oks[0]), WorkerEvent::PauseElapsed];
        let rest = session(evs.drop_first(), oks.drop_first());
        assert(session(evs, oks) == cycle + rest);
        lemma_run_concat(w, cycle, rest);
        let w3 = after(w, cycle);
        reveal_with_fuel(run, 4);
        reveal_with_fuel(after, 4);
        assert(cycle.drop_first().drop_first().drop_first() =~= Seq::<WorkerEvent>::empty());
        assert(run(w, cycle) =~= seq![
            WorkerAction::Send(record_of(evs[0], w.config.log_group_name, w.config.log_stream_name)),
            WorkerAction::Pause(w.config.dispatch_interval_ms),
            WorkerAction::Dequeue,
        ]);
        lemma_session_forwards_in_order(w3, evs.drop_first(), oks.drop_first());
    }
}


/// A refused dispatch does not end forwarding: after the sink fails on one
/// event, the worker pauses, dequeues, and dispatches the next event it
/// receives.
pub proof fn lemma_failure_does_not_stop(w: ForwardingWorker, ev: AuditLog)
    requires
        w.phase is Dispatching,
        !discards(w),
    ensures
        run(w, seq![WorkerEvent::SendFailed, WorkerEvent::PauseElapsed, WorkerEvent::Received(ev)])
            == seq![
            WorkerAction::Pause(w.config.dispatch_interval_ms),
            WorkerAction::Dequeue,
            WorkerAction::Send(record_of(ev, w.config.log_group_name, w.config.log_stream_name)),
        ],
        after(w, seq![WorkerEvent::SendFailed, WorkerEvent::PauseElapsed, WorkerEvent::Received(ev)]).phase
            is Dispatching,
{
    let es = seq![WorkerEvent::SendFailed, WorkerEvent::PauseElapsed, WorkerEvent::Received(ev)];
    reveal_with_fuel(run, 4);
    reveal_with_fuel(after, 4);
    assert(es.drop_first().drop_first().drop_first() =~= Seq::<WorkerEvent>::empty());
    assert(run(w, es) =~= seq![
        WorkerAction::Pause(w.config.dispatch_interval_ms),
        WorkerAction::Dequeue,
        WorkerAction::Send(record_of(ev, w.config.log_group_name, w.config.log_stream_name)),
    ]);
}

/// A stopped worker stays stopped and does nothing more, whatever it hears:
/// in particular it sends nothing.
pub proof fn lemma_stopped_is_final(w: ForwardingWorker, es: Seq<WorkerEvent>)
    requires
        w.phase is Stopped,
    ensures
        after(w, es) == w,
        forall|i: int| 0 <= i < es.len() ==> #[trigger] run(w, es)[i] == WorkerAction::Nothing,
        run(w, es).len() == es.len(),
    decreases es.len(),
{
    if es.len() > 0 {
        lemma_stopped_is_final(w, es.drop_first());
        assert forall|i: int| 0 <= i < es.len() implies run(w, es)[i] == WorkerAction::Nothing by {
            if i > 0 {
                assert(run(w, es)[i] == run(w, es.drop_first())[i - 1]);
            }
        }
    }
}

/// Once stop is requested of a waiting worker and the channel then reports
/// closed, the worker has stopped, and from then on it sends nothing.
pub proof fn lemma_stop_then_close_ends_sending(w: ForwardingWorker, es: Seq<WorkerEvent>)
    requires
        w.phase is Waiting,
    ensures
        after(w, seq![WorkerEvent::StopRequested, WorkerEvent::ChannelClosed]).phase is Stopped,
        no_send_from(run(w, seq![WorkerEvent::StopRequested, WorkerEvent::ChannelClosed] + es), 2),
{
    let pre = seq![WorkerEvent::StopRequested, WorkerEvent::ChannelClosed];
    reveal_with_fuel(run, 3);
    reveal_with_fuel(after, 3);
    assert(pre.drop_first().drop_first() =~= Seq::<WorkerEvent>::empty());
    let w2 = after(w, pre);
    assert(w2.phase is Stopped);
    lemma_run_concat(w, pre, es);
    lemma_stopped_is_final(w2, es);
    assert(run(w, pre).len() == 2);
    assert forall|i: int| 2 <= i < run(w, pre + es).len() implies !(#[trigger] run(w, pre + es)[i] is Send) by {
        assert(run(w, pre + es)[i] == run(w2, es)[i - 2]);
    }
}

/// Under `Discard`, a stop requested while a record is in flight lets that
/// dispatch finish, then stops the worker: its next action is to exit.
pub proof fn lemma_discard_stops_after_in_flight(w: ForwardingWorker, ok: bool)
    requires
        w.phase is Dispatching,
        w.config.shutdown_policy is Discard,
    ensures
        run(w, seq![WorkerEvent::StopRequested, outcome(ok)]) == seq![WorkerAction::Nothing, WorkerAction::Exit],
        after(w, seq![WorkerEvent::StopRequested, outcome(ok)]).phase is Stopped,
{
    let es = seq![WorkerEvent::StopRequested, outcome(ok)];
    reveal_with_fuel(run, 3);
    reveal_with_fuel(after, 3);
    assert(es.drop_first().drop_first() =~= Seq::<WorkerEvent>::empty());
    assert(run(w, es) =~= seq![WorkerAction::Nothing, WorkerAction::Exit]);
}


proof fn lemma_next_keeps_config(w: ForwardingWorker, e: WorkerEvent)
    ensures
        next(w, e).0.config == w.config,
        next(w, e).1 is Send ==> next(w, e).0.phase is Dispatching,
        w.phase is Dispatching ==> !(next(w, e).1 is Send),
        w.phase is Dispatching ==> next(w, e).1 == WorkerAction::Pause(w.config.dispatch_interval_ms)
            || next(w, e).0.phase is Dispatching || next(w, e).0.phase is Stopped,
{
}

proof fn lemma_run_len(w: ForwardingWorker, es: Seq<WorkerEvent>)
    ensures
        run(w, es).len() == es.len(),
        after(w, es).config == w.config,
    decreases es.len(),
{
    if es.len() > 0 {
        lemma_next_keeps_config(w, es[0]);
        lemma_run_len(next(w, es[0]).0, es.drop_first());
    }
}

/// From a worker with a dispatch in flight, any later dispatch comes after a
/// pause of the configured interval.
proof fn lemma_pause_owed(w: ForwardingWorker, es: Seq<WorkerEvent>, j: int)
    requires
        w.phase is Dispatching,
        0 <= j < run(w, es).len(),
        run(w, es)[j] is Send,
    ensures
        exists|k: int| 0 <= k < j && #[trigger] run(w, es)[k] == WorkerAction::Pause(w.config.dispatch_interval_ms),
    decreases es.len(),
{
    lemma_run_len(w, es);
    lemma_next_keeps_config(w, es[0]);
    let (w2, a) = next(w, es[0]);
    let rest = es.drop_first();
    assert(run(w, es)[0] == a);
    if a == WorkerAction::Pause(w.config.dispatch_interval_ms) {
        assert(run(w, es)[0] == WorkerAction::Pause(w.config.dispatch_interval_ms));
    } else {
        assert(run(w, es)[j] == run(w2, rest)[j - 1]);
        if w2.phase is Stopped {
            lemma_stopped_is_final(w2, rest);
        } else {
            lemma_pause_owed(w2, rest, j - 1);
            let k = choose|k: int| 0 <= k < j - 1 && #[trigger] run(w2, rest)[k]
                == WorkerAction::Pause(w2.config.dispatch_interval_ms);
            assert(run(w, es)[k + 1] == run(w2, rest)[k]);
        }
    }
}

/// Dispatches are paced: between any two dispatches that a worker asks
/// for, it asks for a pause of its configured interval.
pub proof fn lemma_dispatches_are_paced(w: ForwardingWorker, es: Seq<WorkerEvent>, i: int, j: int)
    requires
        0 <= i < j < run(w, es).len(),
        run(w, es)[i] is Send,
        run(w, es)[j] is Send,
    ensures
        exists|k: int| i < k < j && #[trigger] run(w, es)[k] == WorkerAction::Pause(w.config.dispatch_interval_ms),
{
    lemma_run_len(w, es);
    let head = es.take(i);
    let tail = es.skip(i + 1);
    let e = es[i];
    assert(es =~= head + (seq![e] + tail));
    lemma_run_concat(w, head, seq![e] + tail);
    let wi = after(w, head);
    lemma_run_len(w, head);
    lemma_run_concat(wi, seq![e], tail);
    reveal_with_fuel(run, 2);
    reveal_with_fuel(after, 2);
    assert(seq![e].drop_first() =~= Seq::<WorkerEvent>::empty());
    lemma_next_keeps_config(wi, e);
    let w1 = next(wi, e).0;
    assert(run(w, es)[i] == next(wi, e).1);
    assert(w1.phase is Dispatching);
    lemma_run_len(w1, tail);
    assert(run(w, es)[j] == run(w1, tail)[j - i - 1]);
    lemma_pause_owed(w1, tail, j - i - 1);
    let k = choose|k: int| 0 <= k < j - i - 1 && #[trigger] run(w1, tail)[k]
        == WorkerAction::Pause(w1.config.dispatch_interval_ms);
    assert(run(w, es)[k + i + 1] == run(w1, tail)[k]);
}


/// Every action of `acts` is to exit or to do nothing.
pub open spec fn does_no_work(acts: Seq<WorkerAction>) -> bool {
    forall|i: int| 0 <= i < acts.len() ==> (#[trigger] acts[i] is Exit || acts[i] is Nothing)
}

/// A worker configured with an empty log group or log stream name fails to
/// start: whatever it hears, it never takes an event off the channel nor
/// sends a record, and once asked to start it has stopped.
pub proof fn lemma_invalid_config_never_starts(w: ForwardingWorker, es: Seq<WorkerEvent>)
    requires
        w.phase is Idle,
        !w.config.valid(),
    ensures
        does_no_work(run(w, es)),
        after(w, es).phase is Idle || after(w, es).phase is Stopped,
        es.len() > 0 && es[0] is Start ==> next(w, es[0]) == (
        ForwardingWorker { phase: Phase::Stopped, ..w }, WorkerAction::Exit),
    decreases es.len(),
{
    if es.len() > 0 {
        let (w2, a) = next(w, es[0]);
        let rest = es.drop_first();
        if w2.phase is Stopped {
            lemma_stopped_is_final(w2, rest);
        } else {
            lemma_invalid_config_never_starts(w2, rest);
        }
        lemma_run_len(w2, rest);
        assert forall|i: int| 0 <= i < run(w, es).len() implies (#[trigger] run(w, es)[i] is Exit
            || run(w, es)[i] is Nothing) by {
            if i > 0 {
                assert(run(w, es)[i] == run(w2, rest)[i - 1]);
            }
        }
    }
}

} // verus!
