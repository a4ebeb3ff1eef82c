//! Write-behind persistence for a trading platform's in-memory cache.
//!
//! Callers enqueue upsert commands on a bounded queue; a single background
//! worker buffers them and flushes them to storage in arrival order. Reads
//! bypass the queue and may observe state that is stale until the next flush:
//! read-your-writes is not guaranteed. The queue, the worker's decision logic
//! and the storage semantics are modelled and verified here; the asynchronous
//! runtime and the relational store sit outside the library.

use vstd::prelude::*;

pub mod assoc;
pub mod command;
pub mod laws;
pub mod model;
pub mod queue;
pub mod quote;
pub mod store;
pub mod text;
pub mod worker;

verus! {

/// Nanoseconds the worker lets commands accumulate before a flush is due.
/// Zero means "flush immediately whenever the buffer is non-empty".
pub fn get_buffer_interval() -> (r: u64)
    ensures
        r == 0,
{
    0
}

} // verus!
