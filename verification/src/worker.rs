//! The persistence worker's decision logic.
//!
//! The worker owns an ordered buffer of not-yet-flushed commands, the time of
//! the last flush, and the flush interval. On each cycle it either flushes the
//! whole buffer in arrival order (when the interval has elapsed and the buffer
//! is non-empty) or reacts to one receive outcome: append a delivered command
//! to the buffer tail, pause briefly on an empty queue, or terminate on a
//! closed one after a final full flush. The driving loop — waiting, sleeping,
//! talking to the real store — lives outside the library and only follows the
//! actions decided here; [`PersistenceWorker::run_until_closed`] is the same
//! cycle run to completion against in-memory storage.

use vstd::prelude::*;
use crate::command::DatabaseQuery;
use crate::queue::{CommandQueue, ReceiveOutcome};
use crate::store::{apply_all, drain_buffer, CacheStore};
use crate::store::lemma_apply_all_append;

verus! {

/// What the driving loop must do next after the worker took one event.
#[derive(Clone, Copy, Debug, PartialEq, Eq, Structural)]
pub enum WorkerAction {
    /// Keep consuming: a command was buffered.
    Proceed,
    /// Nothing pending: pause briefly before polling again.
    Pause,
    /// The queue closed: flush the buffer once more, then stop.
    Terminate,
}

/// The single consumer of the command queue: buffers admitted commands and
/// flushes them in arrival order, never reordering them.
pub struct PersistenceWorker {
    buffer: Vec<DatabaseQuery>,
    last_flush_ns: u64,
    flush_interval_ns: u64,
}

impl PersistenceWorker {
    /// The commands admitted but not yet flushed, oldest first.
    pub closed spec fn buffered(&self) -> Seq<DatabaseQuery> {
        self.buffer@
    }

    /// When the last flush happened.
    pub closed spec fn last_flush_spec(&self) -> u64 {
        self.last_flush_ns
    }

    /// How long commands may accumulate before a flush is due.
    pub closed spec fn interval_spec(&self) -> u64 {
        self.flush_interval_ns
    }

    pub fn new(flush_interval_ns: u64, now_ns: u64) -> (r: Self)
        ensures
            r.buffered().len() == 0,
            r.last_flush_spec() == now_ns,
            r.interval_spec() == flush_interval_ns,
    {
        PersistenceWorker { buffer: Vec::new(), last_flush_ns: now_ns, flush_interval_ns }
    }

    /// Whether the cycle must flush now: the interval has elapsed since the
    /// last flush and there is something to write.
    pub fn flush_due(&self, now_ns: u64) -> (r: bool)
        ensures
            r == (self.buffered().len() > 0 && now_ns >= self.last_flush_spec()
                + self.interval_spec()),
    {
        let due = now_ns >= self.last_flush_ns && now_ns - self.last_flush_ns
            >= self.flush_interval_ns;
        due && self.buffer.len() > 0
    }

    /// React to one receive outcome. A delivered command goes to the buffer
    /// tail — append only, never reordered; the other outcomes leave the
    /// buffer alone and tell the driving loop to pause or to terminate.
    pub fn on_event(&mut self, event: ReceiveOutcome) -> (r: WorkerAction)
        ensures
            final(self).last_flush_spec() == old(self).last_flush_spec(),
            final(self).interval_spec() == old(self).interval_spec(),
            match event {
                ReceiveOutcome::Received(cmd) => final(self).buffered() == old(
                    self,
                ).buffered().push(cmd) && r == WorkerAction::Proceed,
                ReceiveOutcome::Empty => final(self).buffered() == old(self).buffered() && r
                    == WorkerAction::Pause,
                ReceiveOutcome::Disconnected => final(self).buffered() == old(self).buffered() && r
                    == WorkerAction::Terminate,
            },
    {
        match event {
            ReceiveOutcome::Received(cmd) => {
                self.buffer.push(cmd);
                WorkerAction::Proceed
            },
            ReceiveOutcome::Empty => WorkerAction::Pause,
            ReceiveOutcome::Disconnected => WorkerAction::Terminate,
        }
    }

    /// Hand the whole buffer over for flushing, in arrival order, and record
    /// the flush time.
    pub fn take_batch(&mut self, now_ns: u64) -> (batch: Vec<DatabaseQuery>)
        ensures
            batch@ == old(self).buffered(),
            final(self).buffered().len() == 0,
            final(self).last_flush_spec() == now_ns,
            final(self).interval_spec() == old(self).interval_spec(),
    {
        self.last_flush_ns = now_ns;
        let mut batch: Vec<DatabaseQuery> = Vec::new();
        core::mem::swap(&mut batch, &mut self.buffer);
        batch
    }

    /// Consume a closed queue to completion: drain everything still pending,
    /// flush per the worker's own policy, and terminate on a final full
    /// flush. Afterwards storage reflects every command that was buffered or
    /// pending, applied in exactly their arrival order — none lost, none
    /// reordered, regardless of the flush interval.
    pub fn run_until_closed(&mut self, queue: &mut CommandQueue, store: &mut CacheStore, now_ns: u64)
        requires
            old(queue).is_closed(),
            old(queue).wf(),
            old(store).wf(),
            old(self).last_flush_spec() <= now_ns,
        ensures
            final(store).wf(),
            final(store).model() == apply_all(
                old(store).model(),
                old(self).buffered() + old(queue).pending(),
            ),
            final(self).buffered().len() == 0,
            final(self).last_flush_spec() == now_ns,
            final(self).interval_spec() == old(self).interval_spec(),
            final(queue).pending().len() == 0,
    {
        let ghost target = apply_all(store.model(), self.buffered() + queue.pending());
        loop
            invariant
                queue.is_closed(),
                queue.wf(),
                store.wf(),
                self.last_flush_spec() <= now_ns,
                self.interval_spec() == old(self).interval_spec(),
                apply_all(store.model(), self.buffered() + queue.pending()) == target,
            ensures
                queue.wf(),
                store.wf(),
                queue.pending().len() == 0,
                self.last_flush_spec() <= now_ns,
                self.interval_spec() == old(self).interval_spec(),
                apply_all(store.model(), self.buffered()) == target,
            decreases 2 * queue.pending().len() + self.buffered().len(),
        {
            if self.flush_due(now_ns) {
                let ghost m0 = store.model();
                let ghost buf0 = self.buffered();
                let ghost pend0 = queue.pending();
                let mut batch = self.take_batch(now_ns);
                drain_buffer(store, &mut batch);
                proof {
                    lemma_apply_all_append(m0, buf0, pend0);
                    assert(self.buffered() + queue.pending() =~= pend0);
                }
            } else {
                let ghost buf0 = self.buffered();
                let ghost pend0 = queue.pending();
                match queue.try_recv() {
                    ReceiveOutcome::Received(cmd) => {
                        let _action = self.on_event(ReceiveOutcome::Received(cmd));
                        proof {
                            assert(self.buffered() + queue.pending() =~= buf0 + pend0);
                        }
                    },
                    ReceiveOutcome::Empty => {
                        // A closed queue never reports Empty.
                        proof {
                            assert(false);
                        }
                    },
                    ReceiveOutcome::Disconnected => {
                        proof {
                            assert(self.buffered() + queue.pending() =~= self.buffered());
                        }
                        break ;
                    },
                }
            }
        }
        let mut batch = self.take_batch(now_ns);
        drain_buffer(store, &mut batch);
    }
}

} // verus!
