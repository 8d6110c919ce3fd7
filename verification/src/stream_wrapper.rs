//! The worker wrapper: one persistent execution slot.
//!
//! A worker owns one per-connection context for its whole lifetime and
//! repeatedly runs one suspension-bearing operation at a time. Starting an
//! operation pops the shared queue; while the operation is outstanding the
//! worker is in flight and holds the popped task; on completion the worker
//! hands the task back and becomes idle again, still holding the same
//! context, so the connection-level resources survive across an unbounded
//! number of tasks. The operation itself (the network call) is performed
//! outside this library; the wrapper records only the protocol around it.

use vstd::prelude::*;

use crate::task_queue::TaskQueue;

verus! {

/// The per-worker resources reused across tasks. The identifier stands
/// for the worker's exclusive network-client instance, which is created
/// once, never shared, and never replaced.
pub struct RunnerContext {
    pub client_id: u64,
}

/// Whether a worker currently has an operation outstanding, and for which
/// task.
pub enum WorkerPhase<T> {
    Idle,
    InFlight(T),
}

/// One worker: its context and its current phase.
pub struct StreamWrapper<T> {
    pub context: RunnerContext,
    pub phase: WorkerPhase<T>,
}

impl<T> StreamWrapper<T> {
    /// Creates an idle worker owning the given context.
    pub fn new(ctx: RunnerContext) -> (w: StreamWrapper<T>)
        ensures
            w.context == ctx,
            w.phase is Idle,
    {
        StreamWrapper { context: ctx, phase: WorkerPhase::Idle }
    }

    /// Whether this worker currently has no operation outstanding.
    pub fn is_idle(&self) -> (r: bool)
        ensures
            r == (self.phase is Idle),
    {
        match &self.phase {
            WorkerPhase::Idle => true,
            WorkerPhase::InFlight(_) => false,
        }
    }

    /// Starts this worker's next operation by popping the shared queue.
    /// If the queue had a task the worker goes in flight with it; on an
    /// empty queue nothing is popped and the worker reports it at once
    /// instead of blocking. The context is kept either way.
    pub fn start(&mut self, queue: &mut TaskQueue<T>) -> (hit_empty: bool)
        requires
            old(self).phase is Idle,
        ensures
            final(self).context == old(self).context,
            old(queue)@.len() == 0 ==> hit_empty
                && final(self).phase is Idle
                && final(queue)@ == old(queue)@,
            old(queue)@.len() > 0 ==> !hit_empty
                && final(self).phase == WorkerPhase::InFlight(old(queue)@[0])
                && final(queue)@ == old(queue)@.drop_first(),
    {
        match queue.pop() {
            None => true,
            Some(t) => {
                self.phase = WorkerPhase::InFlight(t);
                false
            },
        }
    }

    /// Finishes this worker's outstanding operation: hands the in-flight
    /// task back and returns to idle, keeping the same context.
    pub fn complete(&mut self) -> (t: T)
        requires
            old(self).phase is InFlight,
        ensures
            final(self).context == old(self).context,
            final(self).phase is Idle,
            t == old(self).phase->0,
    {
        let mut ph = WorkerPhase::Idle;
        core::mem::swap(&mut self.phase, &mut ph);
        match ph {
            WorkerPhase::InFlight(t) => t,
            WorkerPhase::Idle => vstd::pervasive::unreached(),
        }
    }
}

} // verus!
