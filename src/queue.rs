use std::collections::VecDeque;
use vstd::prelude::*;

use crate::command::{Command, QUEUE_CAPACITY};

verus! {

/// Why a command was not enqueued.
#[derive(Clone, Copy, Debug, PartialEq, Eq, Structural)]
pub enum EnqueueError {
    /// The queue already holds `QUEUE_CAPACITY` commands.
    Full,
    /// The producer side has been closed.
    Closed,
}

/// What the consumer gets from the queue.
#[derive(Clone, Copy, Debug, PartialEq, Eq, Structural)]
pub enum Dequeued {
    /// The oldest command still queued.
    Item(Command),
    /// Nothing is queued yet, but more may come.
    Empty,
    /// The producer side is closed and every command has been taken.
    Closed,
}

/// A bounded first-in first-out queue of commands with a closable producer side.
pub struct CommandQueue {
    items: VecDeque<Command>,
    closed: bool,
}

impl View for CommandQueue {
    type V = Seq<Command>;

    closed spec fn view(&self) -> Seq<Command> {
        self.items@
    }
}

impl CommandQueue {
    pub closed spec fn is_closed(&self) -> bool {
        self.closed
    }

    pub open spec fn wf(&self) -> bool {
        self@.len() <= QUEUE_CAPACITY
    }

    pub fn new() -> (r: CommandQueue)
        ensures
            r.wf(),
            r@ == Seq::<Command>::empty(),
            !r.is_closed(),
    {
        CommandQueue { items: VecDeque::new(), closed: false }
    }

    pub fn len(&self) -> (r: usize)
        ensures
            r == self@.len(),
    {
        self.items.len()
    }

    pub fn is_empty(&self) -> (r: bool)
        ensures
            r == (self@.len() == 0),
    {
        self.items.len() == 0
    }

    pub fn is_full(&self) -> (r: bool)
        requires
            self.wf(),
        ensures
            r == (self@.len() == QUEUE_CAPACITY),
    {
        self.items.len() == QUEUE_CAPACITY
    }

    pub fn is_closed_now(&self) -> (r: bool)
        ensures
            r == self.is_closed(),
    {
        self.closed
    }

    /// Appends `cmd` at the tail, unless the producer side is closed or the
    /// queue is full; in both of those cases nothing changes.
    pub fn try_enqueue(&mut self, cmd: Command) -> (r: Result<(), EnqueueError>)
        requires
            old(self).wf(),
        ensures
            final(self).wf(),
            final(self).is_closed() == old(self).is_closed(),
            old(self).is_closed() ==> r == Err::<(), EnqueueError>(EnqueueError::Closed)
                && final(self)@ == old(self)@,
            !old(self).is_closed() && old(self)@.len() == QUEUE_CAPACITY ==> r == Err::<
                (),
                EnqueueError,
            >(EnqueueError::Full) && final(self)@ == old(self)@,
            !old(self).is_closed() && old(self)@.len() < QUEUE_CAPACITY ==> r == Ok::<
                (),
                EnqueueError,
            >(()) && final(self)@ == old(self)@.push(cmd),
    {
        if self.closed {
            Err(EnqueueError::Closed)
        } else if self.items.len() >= QUEUE_CAPACITY {
            Err(EnqueueError::Full)
        } else {
            self.items.push_back(cmd);
            Ok(())
        }
    }

    /// Takes the oldest command. An empty queue answers `Closed` once the
    /// producer side is closed and `Empty` before that.
    pub fn dequeue(&mut self) -> (r: Dequeued)
        requires
            old(self).wf(),
        ensures
            final(self).wf(),
            final(self).is_closed() == old(self).is_closed(),
            old(self)@.len() > 0 ==> r == Dequeued::Item(old(self)@[0]) && final(self)@
                == old(self)@.drop_first(),
            old(self)@.len() == 0 ==> final(self)@ == old(self)@ && r == (if old(
                self,
            ).is_closed() {
                Dequeued::Closed
            } else {
                Dequeued::Empty
            }),
    {
        match self.items.pop_front() {
            Some(cmd) => Dequeued::Item(cmd),
            None => {
                if self.closed {
                    Dequeued::Closed
                } else {
                    Dequeued::Empty
                }
            },
        }
    }

    /// Closes the producer side; the queued commands stay.
    pub fn close(&mut self)
        ensures
            final(self).is_closed(),
            final(self)@ == old(self)@,
    {
        self.closed = true;
    }
}

} // verus!
