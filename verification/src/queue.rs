//! The command queue: a bounded first-in, first-out hand-off between the
//! unit that decodes frames and the unit that plays audio.
//!
//! The queue never waits and never drops. A full queue hands the command
//! back, and the sender tries again once a command has been taken out; that
//! is how a slow audio unit slows the decoder down.

use crate::command::{Command, CommandView};
use std::collections::VecDeque;
use vstd::prelude::*;

verus! {

/// Why a command was not accepted. It comes back in either case.
#[derive(Debug, PartialEq, Eq)]
pub enum SendError {
    /// The queue holds as many commands as it may; try again later.
    Full(Command),
    /// The queue is closed for good.
    Closed(Command),
}

/// A `SendError` as mathematical values.
pub enum SendErrorView {
    Full(CommandView),
    Closed(CommandView),
}

impl View for SendError {
    type V = SendErrorView;

    open spec fn view(&self) -> SendErrorView {
        match self {
            SendError::Full(command) => SendErrorView::Full(command@),
            SendError::Closed(command) => SendErrorView::Closed(command@),
        }
    }
}

/// Why no command was delivered.
#[derive(Clone, Copy, Debug, PartialEq, Eq, Structural)]
pub enum ReceiveError {
    /// Nothing is pending; try again later.
    Empty,
    /// Nothing is pending and the queue is closed for good.
    Closed,
}

/// A `CommandQueue` as mathematical values.
pub struct QueueView {
    /// The commands accepted and not yet delivered, oldest first.
    pub pending: Seq<CommandView>,
    /// How many commands may be pending at once.
    pub capacity: nat,
    /// Whether the queue has been closed.
    pub closed: bool,
}

impl QueueView {
    /// The invariant of every `CommandQueue`.
    pub open spec fn wf(self) -> bool {
        0 < self.capacity && self.pending.len() <= self.capacity
    }

    /// Whether a command offered now would be accepted.
    pub open spec fn accepts(self) -> bool {
        !self.closed && self.pending.len() < self.capacity
    }

    /// The queue after `command` was offered.
    pub open spec fn after_send(self, command: CommandView) -> QueueView {
        if self.accepts() {
            QueueView { pending: self.pending.push(command), ..self }
        } else {
            self
        }
    }

    /// The answer to offering `command`.
    pub open spec fn send_result(self, command: CommandView) -> Result<(), SendErrorView> {
        if self.closed {
            Err(SendErrorView::Closed(command))
        } else if self.pending.len() >= self.capacity {
            Err(SendErrorView::Full(command))
        } else {
            Ok(())
        }
    }

    /// The queue after a command was asked for.
    pub open spec fn after_receive(self) -> QueueView {
        if self.pending.len() > 0 {
            QueueView { pending: self.pending.drop_first(), ..self }
        } else {
            self
        }
    }

    /// The answer to asking for a command. What was accepted before the
    /// queue was closed is still delivered.
    pub open spec fn receive_result(self) -> Result<CommandView, ReceiveError> {
        if self.pending.len() > 0 {
            Ok(self.pending[0])
        } else if self.closed {
            Err(ReceiveError::Closed)
        } else {
            Err(ReceiveError::Empty)
        }
    }
}

/// A bounded queue of commands.
#[derive(Debug)]
pub struct CommandQueue {
    pending: VecDeque<Command>,
    capacity: usize,
    closed: bool,
}

impl View for CommandQueue {
    type V = QueueView;

    closed spec fn view(&self) -> QueueView {
        QueueView {
            pending: self.pending@.map_values(|command: Command| command@),
            capacity: self.capacity as nat,
            closed: self.closed,
        }
    }
}

impl CommandQueue {
    /// An open, empty queue for up to `capacity` commands, or nothing where
    /// `capacity` is zero.
    pub fn new(capacity: usize) -> (made: Option<CommandQueue>)
        ensures
            match made {
                Some(queue) => capacity > 0 && queue@.wf() && queue@ == (QueueView {
                    pending: Seq::empty(),
                    capacity: capacity as nat,
                    closed: false,
                }),
                None => capacity == 0,
            },
    {
        if capacity == 0 {
            return None;
        }
        let queue = CommandQueue { pending: VecDeque::new(), capacity, closed: false };
        assert(queue@.pending =~= Seq::empty());
        Some(queue)
    }

    /// Offers a command. It is accepted behind everything pending, or it
    /// comes back because the queue is closed or full.
    pub fn send(&mut self, command: Command) -> (sent: Result<(), SendError>)
        ensures
            final(self)@ == old(self)@.after_send(command@),
            old(self)@.wf() ==> final(self)@.wf(),
            match sent {
                Ok(()) => old(self)@.send_result(command@) is Ok,
                Err(error) => old(self)@.send_result(command@) == Err::<(), _>(error@),
            },
    {
        if self.closed {
            return Err(SendError::Closed(command));
        }
        if self.pending.len() >= self.capacity {
            return Err(SendError::Full(command));
        }
        let ghost before = self.pending@;
        self.pending.push_back(command);
        assert(self.pending@.map_values(|command: Command| command@) =~= before.map_values(
            |command: Command| command@,
        ).push(command@));
        Ok(())
    }

    /// Asks for the oldest pending command.
    pub fn receive(&mut self) -> (received: Result<Command, ReceiveError>)
        ensures
            final(self)@ == old(self)@.after_receive(),
            old(self)@.wf() ==> final(self)@.wf(),
            match received {
                Ok(command) => old(self)@.receive_result() == Ok::<_, ReceiveError>(command@),
                Err(error) => old(self)@.receive_result() == Err::<CommandView, _>(error),
            },
    {
        let ghost before = self.pending@;
        match self.pending.pop_front() {
            Some(command) => {
                assert(self.pending@.map_values(|command: Command| command@)
                    =~= before.map_values(|command: Command| command@).drop_first());
                Ok(command)
            },
            None => {
                if self.closed {
                    Err(ReceiveError::Closed)
                } else {
                    Err(ReceiveError::Empty)
                }
            },
        }
    }

    /// Closes the queue. Nothing is accepted from now on; what is pending
    /// can still be taken out.
    pub fn close(&mut self)
        ensures
            final(self)@ == (QueueView { closed: true, ..old(self)@ }),
            old(self)@.wf() ==> final(self)@.wf(),
    {
        self.closed = true;
    }

    /// How many commands are pending.
    pub fn len(&self) -> (len: usize)
        ensures
            len == self@.pending.len(),
    {
        self.pending.len()
    }

    /// Whether nothing is pending.
    pub fn is_empty(&self) -> (empty: bool)
        ensures
            empty == (self@.pending.len() == 0),
    {
        self.pending.len() == 0
    }

    /// Whether as many commands are pending as may be.
    pub fn is_full(&self) -> (full: bool)
        ensures
            full == (self@.pending.len() >= self@.capacity),
    {
        self.pending.len() >= self.capacity
    }

    /// How many commands may be pending at once.
    pub fn capacity(&self) -> (capacity: usize)
        ensures
            capacity == self@.capacity,
    {
        self.capacity
    }

    /// Whether the queue has been closed.
    pub fn is_closed(&self) -> (closed: bool)
        ensures
            closed == self@.closed,
    {
        self.closed
    }
}

/// One use of the queue by either unit.
pub enum QueueOp {
    Send(CommandView),
    Receive,
    Close,
}

/// What a run of operations has led to.
pub struct Trace {
    /// The queue after the run.
    pub queue: QueueView,
    /// The commands that were accepted, in the order of their sends.
    pub accepted: Seq<CommandView>,
    /// The commands that were delivered, in the order of their receives.
    pub delivered: Seq<CommandView>,
}

/// The trace of `ops`, performed first to last on `start`.
pub open spec fn run(start: QueueView, ops: Seq<QueueOp>) -> Trace
    decreases ops.len(),
{
    if ops.len() == 0 {
        Trace { queue: start, accepted: Seq::empty(), delivered: Seq::empty() }
    } else {
        let before = run(start, ops.drop_last());
        match ops.last() {
            QueueOp::Send(command) => Trace {
                queue: before.queue.after_send(command),
                accepted: if before.queue.accepts() {
                    before.accepted.push(command)
                } else {
                    before.accepted
                },
                delivered: before.delivered,
            },
            QueueOp::Receive => Trace {
                queue: before.queue.after_receive(),
                accepted: before.accepted,
                delivered: match before.queue.receive_result() {
                    Ok(command) => before.delivered.push(command),
                    Err(_) => before.delivered,
                },
            },
            QueueOp::Close => Trace {
                queue: QueueView { closed: true, ..before.queue },
                accepted: before.accepted,
                delivered: before.delivered,
            },
        }
    }
}

/// First in, first out. However sends, receives and a close are
/// interleaved, what has been delivered followed by what is pending is what
/// was pending at the start followed by what has been accepted: commands
/// come out in the order in which they went in, none is lost, none is
/// doubled, and never more than the capacity are pending.
pub proof fn lemma_fifo(start: QueueView, ops: Seq<QueueOp>)
    ensures
        run(start, ops).delivered + run(start, ops).queue.pending == start.pending + run(
            start,
            ops,
        ).accepted,
        run(start, ops).queue.capacity == start.capacity,
        start.wf() ==> run(start, ops).queue.wf(),
    decreases ops.len(),
{
    let after = run(start, ops);
    if ops.len() == 0 {
        assert(after.delivered + after.queue.pending =~= start.pending + after.accepted);
    } else {
        lemma_fifo(start, ops.drop_last());
        let before = run(start, ops.drop_last());
        let total = before.delivered + before.queue.pending;
        match ops.last() {
            QueueOp::Send(command) => {
                if before.queue.accepts() {
                    assert(after.delivered + after.queue.pending =~= total.push(command));
                    assert(start.pending + after.accepted =~= (start.pending
                        + before.accepted).push(command));
                }
            },
            QueueOp::Receive => {
                if before.queue.pending.len() > 0 {
                    assert(after.delivered + after.queue.pending =~= total);
                }
            },
            QueueOp::Close => {},
        }
    }
}

/// Three commands sent to an empty queue with room for them come out in the
/// order in which they were sent.
pub proof fn lemma_three_in_order(
    start: QueueView,
    a: CommandView,
    b: CommandView,
    c: CommandView,
)
    requires
        start.pending.len() == 0,
        start.capacity >= 3,
        !start.closed,
    ensures
        ({
            let first = start.after_send(a).after_send(b).after_send(c);
            let second = first.after_receive();
            let third = second.after_receive();
            &&& first.receive_result() == Ok::<_, ReceiveError>(a)
            &&& second.receive_result() == Ok::<_, ReceiveError>(b)
            &&& third.receive_result() == Ok::<_, ReceiveError>(c)
            &&& third.after_receive().pending.len() == 0
        }),
{
}

} // verus!
