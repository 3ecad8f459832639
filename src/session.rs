use vstd::prelude::*;

use crate::command::{BridgeError, Command, QUEUE_CAPACITY};
use crate::queue::{CommandQueue, Dequeued, EnqueueError};

verus! {

/// Lifecycle of one streaming session.
#[derive(Clone, Copy, Debug, PartialEq, Eq, Structural)]
pub enum Phase {
    /// The worker is still establishing the connection; commands may already queue.
    Connecting,
    /// The stream is open and the producer may still send.
    Streaming,
    /// The producer side is closed; queued commands are being flushed.
    Draining,
    /// Every queued command was delivered and the stream ended cleanly.
    Closed,
    /// The session ended abnormally.
    Failed(BridgeError),
}

/// What `offer` did with a command.
#[derive(Clone, Copy, Debug, PartialEq, Eq, Structural)]
pub enum SendOutcome {
    /// The command was appended to the queue.
    Accepted,
    /// The queue is full: the producer has to wait for the worker and retry.
    Full,
    /// The producer side was already closed.
    Closed,
    /// The session has failed; nothing more will be sent.
    Failed(BridgeError),
}

/// What the worker is to do next.
#[derive(Clone, Copy, Debug, PartialEq, Eq, Structural)]
pub enum WorkerAction {
    /// Write this command onto the outbound stream.
    Forward(Command),
    /// Nothing to do until the producer sends or closes.
    Wait,
    /// Every queued command has been forwarded: half-close the stream.
    HalfClose,
    /// The session is over.
    Stop,
}

/// An input to the session state machine, from the producer or the worker.
#[derive(Clone, Copy, Debug, PartialEq, Eq, Structural)]
pub enum Event {
    Offer(Command),
    Close,
    Connected,
    ConnectFailed,
    Poll,
    StreamFinished(bool),
}

/// Mathematical state of a session. `accepted` and `forwarded` are the
/// histories of the commands taken by `offer` and handed to the stream.
pub struct SessionModel {
    pub phase: Phase,
    pub producer_open: bool,
    pub queue: Seq<Command>,
    pub accepted: Seq<Command>,
    pub forwarded: Seq<Command>,
}

pub open spec fn initial_model() -> SessionModel {
    SessionModel {
        phase: Phase::Connecting,
        producer_open: true,
        queue: Seq::empty(),
        accepted: Seq::empty(),
        forwarded: Seq::empty(),
    }
}

/// The invariant of every reachable session state.
pub open spec fn model_wf(m: SessionModel) -> bool {
    &&& m.queue.len() <= QUEUE_CAPACITY
    &&& m.accepted == m.forwarded + m.queue
    &&& (m.phase is Connecting ==> m.forwarded.len() == 0)
    &&& (m.phase is Streaming ==> m.producer_open)
    &&& (m.phase is Draining ==> !m.producer_open)
    &&& (m.phase is Closed ==> !m.producer_open && m.queue.len() == 0)
}

pub open spec fn offer_step(m: SessionModel, c: Command) -> (SessionModel, SendOutcome) {
    match m.phase {
        Phase::Failed(e) => (m, SendOutcome::Failed(e)),
        _ => {
            if !m.producer_open {
                (m, SendOutcome::Closed)
            } else if m.queue.len() >= QUEUE_CAPACITY {
                (m, SendOutcome::Full)
            } else {
                (
                    SessionModel { queue: m.queue.push(c), accepted: m.accepted.push(c), ..m },
                    SendOutcome::Accepted,
                )
            }
        },
    }
}

pub open spec fn close_step(m: SessionModel) -> SessionModel {
    SessionModel {
        producer_open: false,
        phase: if m.phase is Streaming {
            Phase::Draining
        } else {
            m.phase
        },
        ..m
    }
}

pub open spec fn connected_step(m: SessionModel) -> SessionModel {
    if m.phase is Connecting {
        SessionModel {
            phase: if m.producer_open {
                Phase::Streaming
            } else {
                Phase::Draining
            },
            ..m
        }
    } else {
        m
    }
}

pub open spec fn connect_failed_step(m: SessionModel) -> SessionModel {
    if m.phase is Connecting {
        SessionModel { phase: Phase::Failed(BridgeError::Connection), ..m }
    } else {
        m
    }
}

pub open spec fn poll_step(m: SessionModel) -> (SessionModel, WorkerAction) {
    match m.phase {
        Phase::Streaming | Phase::Draining => {
            if m.queue.len() > 0 {
                (
                    SessionModel {
                        queue: m.queue.drop_first(),
                        forwarded: m.forwarded.push(m.queue[0]),
                        ..m
                    },
                    WorkerAction::Forward(m.queue[0]),
                )
            } else if m.phase is Draining {
                (m, WorkerAction::HalfClose)
            } else {
                (m, WorkerAction::Wait)
            }
        },
        Phase::Connecting => (m, WorkerAction::Wait),
        _ => (m, WorkerAction::Stop),
    }
}

pub open spec fn stream_finished_step(m: SessionModel, ok: bool) -> SessionModel {
    if m.phase is Streaming || m.phase is Draining {
        if ok && m.phase is Draining && m.queue.len() == 0 {
            SessionModel { phase: Phase::Closed, ..m }
        } else {
            SessionModel { phase: Phase::Failed(BridgeError::StreamWrite), ..m }
        }
    } else {
        m
    }
}

pub open spec fn step(m: SessionModel, e: Event) -> SessionModel {
    match e {
        Event::Offer(c) => offer_step(m, c).0,
        Event::Close => close_step(m),
        Event::Connected => connected_step(m),
        Event::ConnectFailed => connect_failed_step(m),
        Event::Poll => poll_step(m).0,
        Event::StreamFinished(ok) => stream_finished_step(m, ok),
    }
}

/// The state reached from `m` through the events `es`, in order.
pub open spec fn run(m: SessionModel, es: Seq<Event>) -> SessionModel
    decreases es.len(),
{
    if es.len() == 0 {
        m
    } else {
        step(run(m, es.drop_last()), es.last())
    }
}

/// Outcome of a teardown, given the final phase and whether the worker's
/// execution context was joined without a fault.
pub open spec fn shutdown_spec(phase: Phase, joined: bool) -> Result<(), BridgeError> {
    if !joined {
        Err(BridgeError::ShutdownJoin)
    } else {
        match phase {
            Phase::Closed => Ok(()),
            Phase::Failed(e) => Err(e),
            _ => Err(BridgeError::ShutdownJoin),
        }
    }
}

/// The state a bridge shares between its producer and its stream worker:
/// the bounded queue and the lifecycle phase.
pub struct StreamSession {
    queue: CommandQueue,
    phase: Phase,
    accepted: Ghost<Seq<Command>>,
    forwarded: Ghost<Seq<Command>>,
}

impl View for StreamSession {
    type V = SessionModel;

    closed spec fn view(&self) -> SessionModel {
        SessionModel {
            phase: self.phase,
            producer_open: !self.queue.is_closed(),
            queue: self.queue@,
            accepted: self.accepted@,
            forwarded: self.forwarded@,
        }
    }
}

impl StreamSession {
    pub closed spec fn wf(&self) -> bool {
        &&& self.queue.wf()
        &&& model_wf(self@)
    }

    pub fn new() -> (r: StreamSession)
        ensures
            r.wf(),
            r@ == initial_model(),
    {
        let r = StreamSession {
            queue: CommandQueue::new(),
            phase: Phase::Connecting,
            accepted: Ghost(Seq::empty()),
            forwarded: Ghost(Seq::empty()),
        };
        assert(r@.accepted == r@.forwarded + r@.queue);
        r
    }

    pub fn phase(&self) -> (r: Phase)
        ensures
            r == self@.phase,
    {
        self.phase
    }

    pub fn queued(&self) -> (r: usize)
        ensures
            r == self@.queue.len(),
    {
        self.queue.len()
    }

    /// Producer side: hands one command to the session.
    pub fn offer(&mut self, cmd: Command) -> (r: SendOutcome)
        requires
            old(self).wf(),
        ensures
            final(self).wf(),
            (final(self)@, r) == offer_step(old(self)@, cmd),
    {
        if let Phase::Failed(e) = self.phase {
            return SendOutcome::Failed(e);
        }
        match self.queue.try_enqueue(cmd) {
            Ok(()) => {
                proof {
                    self.accepted@ = self.accepted@.push(cmd);
                    assert(self.accepted@ == self.forwarded@ + self.queue@);
                }
                SendOutcome::Accepted
            },
            Err(EnqueueError::Full) => SendOutcome::Full,
            Err(EnqueueError::Closed) => SendOutcome::Closed,
        }
    }

    /// Producer side: no more commands will be offered.
    pub fn close(&mut self)
        requires
            old(self).wf(),
        ensures
            final(self).wf(),
            final(self)@ == close_step(old(self)@),
    {
        self.queue.close();
        if self.phase == Phase::Streaming {
            self.phase = Phase::Draining;
        }
    }

    /// Worker side: the connection to the robot is established.
    pub fn connected(&mut self)
        requires
            old(self).wf(),
        ensures
            final(self).wf(),
            final(self)@ == connected_step(old(self)@),
    {
        if self.phase == Phase::Connecting {
            if self.queue.is_closed_now() {
                self.phase = Phase::Draining;
            } else {
                self.phase = Phase::Streaming;
            }
        }
    }

    /// Worker side: the connection could not be established.
    pub fn connect_failed(&mut self)
        requires
            old(self).wf(),
        ensures
            final(self).wf(),
            final(self)@ == connect_failed_step(old(self)@),
    {
        if self.phase == Phase::Connecting {
            self.phase = Phase::Failed(BridgeError::Connection);
        }
    }

    /// Worker side: decides the next thing to do, taking the oldest queued
    /// command when there is one to forward.
    pub fn poll(&mut self) -> (r: WorkerAction)
        requires
            old(self).wf(),
        ensures
            final(self).wf(),
            (final(self)@, r) == poll_step(old(self)@),
    {
        match self.phase {
            Phase::Streaming | Phase::Draining => {
                let ghost q = self.queue@;
                match self.queue.dequeue() {
                    Dequeued::Item(cmd) => {
                        proof {
                            let f = self.forwarded@;
                            self.forwarded@ = f.push(cmd);
                            assert(f + q =~= f.push(cmd) + q.drop_first());
                            assert(self.accepted@ == self.forwarded@ + self.queue@);
                        }
                        WorkerAction::Forward(cmd)
                    },
                    _ => {
                        if self.phase == Phase::Draining {
                            WorkerAction::HalfClose
                        } else {
                            WorkerAction::Wait
                        }
                    },
                }
            },
            Phase::Connecting => WorkerAction::Wait,
            _ => WorkerAction::Stop,
        }
    }

    /// Worker side: the outbound stream ended, cleanly (`ok`) or with a
    /// transport error. Only a clean end after a full drain closes the session.
    pub fn stream_finished(&mut self, ok: bool)
        requires
            old(self).wf(),
        ensures
            final(self).wf(),
            final(self)@ == stream_finished_step(old(self)@, ok),
    {
        match self.phase {
            Phase::Streaming | Phase::Draining => {
                if ok && self.phase == Phase::Draining && self.queue.is_empty() {
                    self.phase = Phase::Closed;
                } else {
                    self.phase = Phase::Failed(BridgeError::StreamWrite);
                }
            },
            _ => {},
        }
    }

    /// Teardown: the result reported once the worker's execution context has
    /// terminated (`joined` tells whether it was joined without a fault).
    pub fn shutdown_result(&self, joined: bool) -> (r: Result<(), BridgeError>)
        ensures
            r == shutdown_spec(self@.phase, joined),
    {
        if !joined {
            Err(BridgeError::ShutdownJoin)
        } else {
            match self.phase {
                Phase::Closed => Ok(()),
                Phase::Failed(e) => Err(e),
                _ => Err(BridgeError::ShutdownJoin),
            }
        }
    }
}

} // verus!
