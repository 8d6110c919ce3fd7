//! Task-pool execution engine for a continuously-running crawler.
//!
//! The engine runs a fixed number of workers against a backlog of fetch
//! tasks held in a shared FIFO queue, reuses each worker's per-connection
//! context across tasks, refills the backlog from durable storage when it
//! drains, and routes per-task outcomes to distinct storage mutations.
//! The network client and the real store are external collaborators; the
//! binary around this library performs their calls and feeds the results
//! back in as plain values.

pub mod artwork;
pub mod artworks_spider;
pub mod authors_spider;
pub mod config;
pub mod future_selector;
pub mod store_model;
pub mod stream_wrapper;
pub mod task_queue;

use vstd::prelude::*;

verus! {

} // verus!
