use vstd::prelude::*;

use crate::command::{BridgeError, Command, QUEUE_CAPACITY};
use crate::session::{
    close_step, connect_failed_step, connected_step, initial_model, model_wf, offer_step, poll_step,
    run, shutdown_spec, step, stream_finished_step, Event, Phase, SendOutcome, SessionModel,
    WorkerAction,
};

verus! {

/// The actions and final state of `n` successive polls by the worker.
pub open spec fn polls(m: SessionModel, n: nat) -> (SessionModel, Seq<WorkerAction>)
    decreases n,
{
    if n == 0 {
        (m, Seq::empty())
    } else {
        let (m1, a) = poll_step(m);
        let (m2, acts) = polls(m1, (n - 1) as nat);
        (m2, seq![a] + acts)
    }
}

pub open spec fn forwards(q: Seq<Command>) -> Seq<WorkerAction> {
    q.map_values(|c: Command| WorkerAction::Forward(c))
}

/// Every event keeps the session invariant.
pub proof fn lemma_step_wf(m: SessionModel, e: Event)
    requires
        model_wf(m),
    ensures
        model_wf(step(m, e)),
{
    match e {
        Event::Offer(c) => {
            let r = offer_step(m, c).0;
            if r != m {
                assert(r.accepted =~= r.forwarded + r.queue);
            }
        },
        Event::Poll => {
            let r = poll_step(m).0;
            if m.queue.len() > 0 && (m.phase is Streaming || m.phase is Draining) {
                assert(m.forwarded + m.queue =~= m.forwarded.push(m.queue[0])
                    + m.queue.drop_first());
            }
        },
        _ => {},
    }
}

/// Every state reached from a fresh session keeps the invariant.
pub proof fn lemma_run_wf(m: SessionModel, es: Seq<Event>)
    requires
        model_wf(m),
    ensures
        model_wf(run(m, es)),
    decreases es.len(),
{
    if es.len() > 0 {
        lemma_run_wf(m, es.drop_last());
        lemma_step_wf(run(m, es.drop_last()), es.last());
    }
}

/// Order preservation: whatever the producer and the worker do, the commands
/// handed to the stream are, in order, a prefix of the commands accepted, and
/// what is still queued is exactly the rest. The queue never holds more than
/// its capacity.
pub proof fn lemma_order_preserved(es: Seq<Event>)
    ensures
        run(initial_model(), es).forwarded.is_prefix_of(run(initial_model(), es).accepted),
        run(initial_model(), es).accepted == run(initial_model(), es).forwarded + run(
            initial_model(),
            es,
        ).queue,
        run(initial_model(), es).queue.len() <= QUEUE_CAPACITY,
{
    let m0 = initial_model();
    assert(m0.accepted =~= m0.forwarded + m0.queue);
    lemma_run_wf(m0, es);
    let m = run(m0, es);
    assert(m.forwarded =~= m.accepted.subrange(0, m.forwarded.len() as int));
}

/// Backpressure: on a full queue an offer is refused with `Full` and the
/// session is left unchanged: nothing is dropped and nothing grows.
pub proof fn lemma_backpressure(m: SessionModel, c: Command)
    requires
        model_wf(m),
        m.producer_open,
        !(m.phase is Failed),
        m.queue.len() == QUEUE_CAPACITY,
    ensures
        offer_step(m, c) == (m, SendOutcome::Full),
{
}

proof fn lemma_drain(d: SessionModel)
    requires
        model_wf(d),
        d.phase is Draining,
    ensures
        polls(d, d.queue.len() + 1).1 == forwards(d.queue).push(WorkerAction::HalfClose),
        polls(d, d.queue.len() + 1).0.forwarded == d.forwarded + d.queue,
        polls(d, d.queue.len() + 1).0.queue.len() == 0,
        polls(d, d.queue.len() + 1).0.phase == Phase::Draining,
    decreases d.queue.len(),
{
    let n = d.queue.len();
    if n == 0 {
        assert(polls(d, 0) == (d, Seq::<WorkerAction>::empty()));
        assert(poll_step(d) == (d, WorkerAction::HalfClose));
        assert(polls(d, 1).1 =~= seq![WorkerAction::HalfClose]);
        assert(forwards(d.queue).push(WorkerAction::HalfClose) =~= seq![WorkerAction::HalfClose]);
        assert(d.forwarded + d.queue =~= d.forwarded);
    } else {
        let (d1, a) = poll_step(d);
        lemma_step_wf(d, Event::Poll);
        lemma_drain(d1);
        assert(d1.queue.len() + 1 == n);
        assert(polls(d, n + 1) == (polls(d1, n).0, seq![a] + polls(d1, n).1));
        assert(forwards(d.queue).push(WorkerAction::HalfClose) =~= seq![a] + forwards(
            d1.queue,
        ).push(WorkerAction::HalfClose));
        assert(d.forwarded + d.queue =~= d1.forwarded + d1.queue);
    }
}

/// Clean shutdown drains the queue: once the producer side is closed and the
/// connection is up, the worker forwards every queued command, in order, and
/// only then half-closes the stream; a clean end of the stream then closes
/// the session and teardown reports success.
pub proof fn lemma_shutdown_drains(m: SessionModel)
    requires
        model_wf(m),
        m.phase is Streaming || m.phase is Connecting,
    ensures
        ({
            let d = connected_step(close_step(m));
            let (f, acts) = polls(d, m.queue.len() + 1);
            &&& acts == forwards(m.queue).push(WorkerAction::HalfClose)
            &&& f.forwarded == m.forwarded + m.queue
            &&& f.queue.len() == 0
            &&& stream_finished_step(f, true).phase == Phase::Closed
            &&& shutdown_spec(stream_finished_step(f, true).phase, true) == Ok::<(), BridgeError>(())
        }),
{
    let d = connected_step(close_step(m));
    lemma_step_wf(m, Event::Close);
    lemma_step_wf(close_step(m), Event::Connected);
    lemma_drain(d);
}

proof fn lemma_failed_run(f: SessionModel, es: Seq<Event>)
    requires
        f.phase is Failed,
    ensures
        run(f, es).phase == f.phase,
        run(f, es).accepted == f.accepted,
        run(f, es).forwarded == f.forwarded,
    decreases es.len(),
{
    if es.len() > 0 {
        lemma_failed_run(f, es.drop_last());
    }
}

/// A connection that cannot be established fails the session with a
/// connection error: no command was handed to the stream, every later offer
/// is refused with that error and accepts nothing, whatever happens next, and
/// teardown reports it.
pub proof fn lemma_connection_failure(m: SessionModel, c: Command, es: Seq<Event>)
    requires
        model_wf(m),
        m.phase is Connecting,
    ensures
        connect_failed_step(m).phase == Phase::Failed(BridgeError::Connection),
        connect_failed_step(m).forwarded.len() == 0,
        offer_step(connect_failed_step(m), c) == (
        connect_failed_step(m),
        SendOutcome::Failed(BridgeError::Connection),
        ),
        run(connect_failed_step(m), es).phase == Phase::Failed(BridgeError::Connection),
        run(connect_failed_step(m), es).accepted == m.accepted,
        run(connect_failed_step(m), es).forwarded.len() == 0,
        shutdown_spec(run(connect_failed_step(m), es).phase, true) == Err::<(), BridgeError>(
            BridgeError::Connection,
        ),
{
    lemma_failed_run(connect_failed_step(m), es);
}

/// A session that sees no command, closed before or after the connection is
/// up, half-closes at once and tears down cleanly, having sent nothing.
pub proof fn lemma_zero_command_session()
    ensures
        ({
            let a = close_step(connected_step(initial_model()));
            let b = connected_step(close_step(initial_model()));
            &&& a == b
            &&& poll_step(a) == (a, WorkerAction::HalfClose)
            &&& stream_finished_step(a, true).phase == Phase::Closed
            &&& stream_finished_step(a, true).forwarded.len() == 0
            &&& shutdown_spec(stream_finished_step(a, true).phase, true) == Ok::<(), BridgeError>(())
        }),
{
}

/// Two successive sends from the same caller add exactly two entries, in call
/// order; when the session is open with room for both, both are accepted.
pub proof fn lemma_sends_serialize(m: SessionModel, a: Command, b: Command)
    requires
        model_wf(m),
    ensures
        ({
            let (m1, o1) = offer_step(m, a);
            let (m2, o2) = offer_step(m1, b);
            &&& (o1 == SendOutcome::Accepted && o2 == SendOutcome::Accepted) ==> m2.queue
                == m.queue.push(a).push(b) && m2.accepted == m.accepted.push(a).push(b)
            &&& (m.producer_open && !(m.phase is Failed) && m.queue.len() + 2 <= QUEUE_CAPACITY)
                ==> o1 == SendOutcome::Accepted && o2 == SendOutcome::Accepted
        }),
{
}

} // verus!
