//! The bounded command queue: many producers, one consumer, backpressure
//! instead of loss.
//!
//! A command offered to the queue is never silently discarded: it is either
//! appended to the pending sequence, or handed back because the queue is at
//! capacity (the caller must wait) or closed (persistence is unavailable).

use vstd::prelude::*;
use crate::command::DatabaseQuery;
use crate::model::{Currency, InstrumentAny};

verus! {

/// The capacity the queue is created with unless a caller picks another.
pub const DEFAULT_QUEUE_CAPACITY: usize = 1000;

/// The outcome of offering one command. `Full` and `Closed` hand the command
/// back untouched: nothing is dropped.
#[derive(Debug)]
pub enum EnqueueResult {
    /// The command was appended to the pending sequence.
    Accepted,
    /// The queue is at capacity; the caller must wait and offer again.
    Full(DatabaseQuery),
    /// The consuming side is gone; persistence is unavailable.
    Closed(DatabaseQuery),
}

/// What the consumer sees when it polls the queue.
#[derive(Debug)]
pub enum ReceiveOutcome {
    /// The oldest pending command, removed from the queue.
    Received(DatabaseQuery),
    /// Nothing pending, but producers may still send.
    Empty,
    /// Nothing pending and every producer is gone.
    Disconnected,
}

/// A bounded first-in/first-out queue of commands. Arrival order is commit
/// order: the consumer sees commands exactly in the order they were admitted.
pub struct CommandQueue {
    items: Vec<DatabaseQuery>,
    capacity: usize,
    closed: bool,
}

/// How one enqueue relates the queue before (`pre`) and after (`post`): the
/// command `cmd` is appended when there is room, and otherwise handed back in
/// `r` with the queue unchanged.
pub open spec fn enqueue_spec(
    pre: CommandQueue,
    post: CommandQueue,
    cmd: DatabaseQuery,
    r: EnqueueResult,
) -> bool {
    &&& post.capacity_spec() == pre.capacity_spec()
    &&& post.is_closed() == pre.is_closed()
    &&& pre.is_closed() ==> post.pending() == pre.pending() && r == EnqueueResult::Closed(cmd)
    &&& (!pre.is_closed() && pre.pending().len() < pre.capacity_spec()) ==> post.pending()
        == pre.pending().push(cmd) && r == EnqueueResult::Accepted
    &&& (!pre.is_closed() && pre.pending().len() >= pre.capacity_spec()) ==> post.pending()
        == pre.pending() && r == EnqueueResult::Full(cmd)
}

impl CommandQueue {
    /// The admitted commands, oldest first.
    pub closed spec fn pending(&self) -> Seq<DatabaseQuery> {
        self.items@
    }

    /// The bound the queue was created with.
    pub closed spec fn capacity_spec(&self) -> int {
        self.capacity as int
    }

    /// Whether every producer handle has been dropped.
    pub closed spec fn is_closed(&self) -> bool {
        self.closed
    }

    /// The queue never holds more than its capacity.
    pub open spec fn wf(&self) -> bool {
        self.pending().len() <= self.capacity_spec()
    }

    pub fn new(capacity: usize) -> (r: Self)
        requires
            capacity > 0,
        ensures
            r.wf(),
            r.pending().len() == 0,
            r.capacity_spec() == capacity,
            !r.is_closed(),
    {
        CommandQueue { items: Vec::new(), capacity, closed: false }
    }

    /// A queue with the default capacity.
    pub fn with_default_capacity() -> (r: Self)
        ensures
            r.wf(),
            r.pending().len() == 0,
            r.capacity_spec() == DEFAULT_QUEUE_CAPACITY as int,
            !r.is_closed(),
    {
        CommandQueue::new(DEFAULT_QUEUE_CAPACITY)
    }

    /// Offer one command; backpressure, not drop.
    pub fn try_enqueue(&mut self, cmd: DatabaseQuery) -> (r: EnqueueResult)
        requires
            old(self).wf(),
        ensures
            final(self).wf(),
            enqueue_spec(*old(self), *final(self), cmd, r),
    {
        if self.closed {
            EnqueueResult::Closed(cmd)
        } else if self.items.len() < self.capacity {
            self.items.push(cmd);
            EnqueueResult::Accepted
        } else {
            EnqueueResult::Full(cmd)
        }
    }

    /// Enqueue a generic key/blob upsert.
    pub fn add(&mut self, key: String, value: Vec<u8>) -> (r: EnqueueResult)
        requires
            old(self).wf(),
        ensures
            final(self).wf(),
            enqueue_spec(*old(self), *final(self), DatabaseQuery::Add(key, value), r),
    {
        self.try_enqueue(DatabaseQuery::Add(key, value))
    }

    /// Enqueue a currency upsert.
    pub fn add_currency(&mut self, currency: Currency) -> (r: EnqueueResult)
        requires
            old(self).wf(),
        ensures
            final(self).wf(),
            enqueue_spec(*old(self), *final(self), DatabaseQuery::AddCurrency(currency), r),
    {
        self.try_enqueue(DatabaseQuery::AddCurrency(currency))
    }

    /// Enqueue an instrument upsert.
    pub fn add_instrument(&mut self, instrument: InstrumentAny) -> (r: EnqueueResult)
        requires
            old(self).wf(),
        ensures
            final(self).wf(),
            enqueue_spec(*old(self), *final(self), DatabaseQuery::AddInstrument(instrument), r),
    {
        self.try_enqueue(DatabaseQuery::AddInstrument(instrument))
    }

    /// Mark every producer handle dropped. Pending commands stay for the
    /// consumer to drain.
    pub fn close(&mut self)
        requires
            old(self).wf(),
        ensures
            final(self).wf(),
            final(self).is_closed(),
            final(self).pending() == old(self).pending(),
            final(self).capacity_spec() == old(self).capacity_spec(),
    {
        self.closed = true;
    }

    /// Non-blocking receive: the oldest command if one is pending, otherwise
    /// whether the queue is merely empty or closed for good.
    pub fn try_recv(&mut self) -> (r: ReceiveOutcome)
        requires
            old(self).wf(),
        ensures
            final(self).wf(),
            final(self).capacity_spec() == old(self).capacity_spec(),
            final(self).is_closed() == old(self).is_closed(),
            old(self).pending().len() > 0 ==> r == ReceiveOutcome::Received(old(self).pending()[0])
                && final(self).pending() == old(self).pending().subrange(
                1,
                old(self).pending().len() as int,
            ),
            old(self).pending().len() == 0 && !old(self).is_closed() ==> r
                == ReceiveOutcome::Empty && final(self).pending() == old(self).pending(),
            old(self).pending().len() == 0 && old(self).is_closed() ==> r
                == ReceiveOutcome::Disconnected && final(self).pending() == old(self).pending(),
    {
        if self.items.len() > 0 {
            let cmd = self.items.remove(0);
            ReceiveOutcome::Received(cmd)
        } else if self.closed {
            ReceiveOutcome::Disconnected
        } else {
            ReceiveOutcome::Empty
        }
    }
}

} // verus!
