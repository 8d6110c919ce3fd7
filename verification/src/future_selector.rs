//! The multiplexer: interleaves a fixed pool of workers as parallel
//! consumers of one shared queue.
//!
//! Polling the multiplexer starts an operation on every idle worker, each
//! start popping one task from the queue; a worker that finds the queue
//! empty reports so immediately. Which in-flight operation finishes first
//! is decided outside this library (by the scheduler and the network), so
//! completion arrives here as an event naming the worker; only that worker
//! is advanced, the others stay exactly as they were, still in flight.

use vstd::prelude::*;

use crate::stream_wrapper::{RunnerContext, StreamWrapper, WorkerPhase};
use crate::task_queue::TaskQueue;

verus! {

/// The pool of workers, viewed as the sequence of their states.
pub struct FutureSelector<T> {
    workers: Vec<StreamWrapper<T>>,
}

/// One step of the engine, as the outside world drives it: a poll that
/// starts every idle worker, the completion of worker `i`'s operation, or
/// a refill that appends a batch of tasks to the queue.
pub enum EngineEvent<T> {
    Poll,
    Complete(int),
    Refill(Seq<T>),
}

/// The poll sweep over workers `i..`: every idle worker takes the front
/// task of the queue and goes in flight; a worker that meets the empty
/// queue stops the sweep and reports it (third component `true`).
pub open spec fn sweep<T>(ws: Seq<StreamWrapper<T>>, q: Seq<T>, i: int) -> (Seq<
    StreamWrapper<T>,
>, Seq<T>, bool)
    decreases ws.len() - i,
{
    if i < 0 || i >= ws.len() {
        (ws, q, false)
    } else if ws[i].phase is Idle {
        if q.len() == 0 {
            (ws, q, true)
        } else {
            sweep(
                ws.update(i, StreamWrapper { context: ws[i].context, phase: WorkerPhase::InFlight(q[0]) }),
                q.drop_first(),
                i + 1,
            )
        }
    } else {
        sweep(ws, q, i + 1)
    }
}

/// The completion of worker `i`: it returns to idle with the same context;
/// every other worker is untouched.
pub open spec fn completed<T>(ws: Seq<StreamWrapper<T>>, i: int) -> Seq<StreamWrapper<T>> {
    ws.update(i, StreamWrapper { context: ws[i].context, phase: WorkerPhase::Idle })
}

/// One transition of the worker pool and queue under an engine event.
/// A completion event for a worker that is not in flight is no step the
/// running system can take and changes nothing.
pub open spec fn engine_next<T>(ws: Seq<StreamWrapper<T>>, q: Seq<T>, ev: EngineEvent<T>) -> (Seq<
    StreamWrapper<T>,
>, Seq<T>) {
    match ev {
        EngineEvent::Poll => {
            let (ws2, q2, hit_empty) = sweep(ws, q, 0);
            (ws2, q2)
        },
        EngineEvent::Complete(i) => {
            if 0 <= i < ws.len() && ws[i].phase is InFlight {
                (completed(ws, i), q)
            } else {
                (ws, q)
            }
        },
        EngineEvent::Refill(ts) => (ws, q + ts),
    }
}

/// The pool and queue after a whole sequence of engine events.
pub open spec fn engine_run<T>(ws: Seq<StreamWrapper<T>>, q: Seq<T>, evs: Seq<EngineEvent<T>>) -> (Seq<
    StreamWrapper<T>,
>, Seq<T>)
    decreases evs.len(),
{
    if evs.len() == 0 {
        (ws, q)
    } else {
        let (ws2, q2) = engine_next(ws, q, evs[0]);
        engine_run(ws2, q2, evs.drop_first())
    }
}

/// Every worker of `b` holds the same context as the same worker of `a`.
pub open spec fn same_contexts<T>(a: Seq<StreamWrapper<T>>, b: Seq<StreamWrapper<T>>) -> bool {
    &&& a.len() == b.len()
    &&& forall|i: int| 0 <= i < a.len() ==> a[i].context == b[i].context
}

/// Every worker of the pool has an operation in flight.
pub open spec fn all_in_flight<T>(ws: Seq<StreamWrapper<T>>) -> bool {
    forall|i: int| 0 <= i < ws.len() ==> ws[i].phase is InFlight
}

impl<T> View for FutureSelector<T> {
    type V = Seq<StreamWrapper<T>>;

    closed spec fn view(&self) -> Seq<StreamWrapper<T>> {
        self.workers@
    }
}

impl<T> FutureSelector<T> {
    /// Creates a multiplexer holding no workers yet.
    pub fn new() -> (s: FutureSelector<T>)
        ensures
            s@ == Seq::<StreamWrapper<T>>::empty(),
    {
        FutureSelector { workers: Vec::new() }
    }

    /// The number of workers held.
    pub fn len(&self) -> (n: usize)
        ensures
            n == self@.len(),
    {
        self.workers.len()
    }

    /// Adds one worker to the pool.
    pub fn push(&mut self, w: StreamWrapper<T>)
        ensures
            final(self)@ == old(self)@.push(w),
    {
        self.workers.push(w);
    }

    /// Polls the pool: starts an operation on every idle worker, popping
    /// the queue once per start. Returns whether some idle worker met the
    /// empty queue, which the caller surfaces as a scheduling signal
    /// rather than suspending.
    pub fn poll_start(&mut self, queue: &mut TaskQueue<T>) -> (hit_empty: bool)
        ensures
            (final(self)@, final(queue)@, hit_empty) == sweep(old(self)@, old(queue)@, 0),
    {
        let n = self.workers.len();
        let mut i: usize = 0;
        while i < n
            invariant
                i <= n,
                n == self.workers@.len(),
                sweep(old(self)@, old(queue)@, 0) == sweep(self.workers@, queue@, i as int),
            decreases n - i,
        {
            if self.workers[i].is_idle() {
                let ghost pre_ws = self.workers@;
                let ghost pre_q = queue@;
                let w = &mut self.workers[i];
                let worker_hit_empty = w.start(queue);
                if worker_hit_empty {
                    proof {
                        assert(self.workers@ =~= pre_ws);
                        assert(sweep(self.workers@, queue@, i as int) == (
                            self.workers@,
                            queue@,
                            true,
                        ));
                    }
                    return true;
                }
                proof {
                    assert(self.workers@ =~= pre_ws.update(
                        i as int,
                        StreamWrapper {
                            context: pre_ws[i as int].context,
                            phase: WorkerPhase::InFlight(pre_q[0]),
                        },
                    ));
                }
            }
            i = i + 1;
        }
        false
    }

    /// Takes the completion of worker `i`'s operation: the worker returns
    /// to idle with its context kept, and hands back the task it was
    /// running. Every other worker stays exactly as it was.
    pub fn complete(&mut self, i: usize) -> (t: T)
        requires
            i < old(self)@.len(),
            old(self)@[i as int].phase is InFlight,
        ensures
            final(self)@ == completed(old(self)@, i as int),
            t == old(self)@[i as int].phase->0,
    {
        let w = &mut self.workers[i];
        let t = w.complete();
        proof {
            assert(self.workers@ =~= completed(old(self)@, i as int));
        }
        t
    }
}

/// The number of workers of the pool that have an operation in flight.
pub open spec fn in_flight_count<T>(ws: Seq<StreamWrapper<T>>) -> int
    decreases ws.len(),
{
    if ws.len() == 0 {
        0
    } else {
        (if ws[0].phase is InFlight {
            1int
        } else {
            0int
        }) + in_flight_count(ws.drop_first())
    }
}

/// Each worker runs at most one operation at a time, so the in-flight
/// count never exceeds the worker count.
pub proof fn lemma_in_flight_count_bounded<T>(ws: Seq<StreamWrapper<T>>)
    ensures
        0 <= in_flight_count(ws) <= ws.len(),
    decreases ws.len(),
{
    if ws.len() > 0 {
        lemma_in_flight_count_bounded(ws.drop_first());
    }
}

/// What one poll sweep does to the pool: it keeps the worker count and
/// every context, never touches a worker already in flight, and either
/// puts every remaining worker in flight or stops on the drained queue.
proof fn lemma_sweep_properties<T>(ws: Seq<StreamWrapper<T>>, q: Seq<T>, i: int)
    requires
        0 <= i <= ws.len(),
    ensures
        ({
            let (ws2, q2, hit_empty) = sweep(ws, q, i);
            &&& ws2.len() == ws.len()
            &&& same_contexts(ws, ws2)
            &&& forall|j: int| 0 <= j < i ==> ws2[j] == ws[j]
            &&& forall|j: int|
                i <= j < ws.len() && ws[j].phase is InFlight ==> ws2[j] == ws[j]
            &&& !hit_empty ==> forall|j: int| i <= j < ws.len() ==> ws2[j].phase is InFlight
            &&& hit_empty ==> q2.len() == 0
        }),
    decreases ws.len() - i,
{
    if i < ws.len() {
        if ws[i].phase is Idle {
            if q.len() > 0 {
                let ws1 = ws.update(
                    i,
                    StreamWrapper { context: ws[i].context, phase: WorkerPhase::InFlight(q[0]) },
                );
                lemma_sweep_properties(ws1, q.drop_first(), i + 1);
            }
        } else {
            lemma_sweep_properties(ws, q, i + 1);
        }
    }
}

/// One engine event keeps the worker count and every worker's context.
proof fn lemma_next_preserves_pool<T>(ws: Seq<StreamWrapper<T>>, q: Seq<T>, ev: EngineEvent<T>)
    ensures
        same_contexts(ws, engine_next(ws, q, ev).0),
{
    match ev {
        EngineEvent::Poll => {
            lemma_sweep_properties(ws, q, 0);
        },
        EngineEvent::Complete(i) => {
        },
        EngineEvent::Refill(ts) => {
        },
    }
}

/// A run of engine events keeps the worker count and every context.
proof fn lemma_run_preserves_pool<T>(ws: Seq<StreamWrapper<T>>, q: Seq<T>, evs: Seq<EngineEvent<T>>)
    ensures
        same_contexts(ws, engine_run(ws, q, evs).0),
    decreases evs.len(),
{
    if evs.len() > 0 {
        let (ws2, q2) = engine_next(ws, q, evs[0]);
        lemma_next_preserves_pool(ws, q, evs[0]);
        lemma_run_preserves_pool(ws2, q2, evs.drop_first());
    }
}

/// Bounded concurrency: however the engine is driven, the pool keeps
/// exactly the worker count it started with, and the number of operations
/// in flight never exceeds that count.
pub proof fn lemma_in_flight_never_exceeds_workers<T>(
    ws: Seq<StreamWrapper<T>>,
    q: Seq<T>,
    evs: Seq<EngineEvent<T>>,
)
    ensures
        engine_run(ws, q, evs).0.len() == ws.len(),
        in_flight_count(engine_run(ws, q, evs).0) <= ws.len(),
{
    lemma_run_preserves_pool(ws, q, evs);
    lemma_in_flight_count_bounded(engine_run(ws, q, evs).0);
}

/// Full utilization: when a poll leaves the queue non-empty, it has left
/// every worker of the pool in flight — no completed worker stays idle
/// while tasks wait.
pub proof fn lemma_poll_saturates_workers<T>(ws: Seq<StreamWrapper<T>>, q: Seq<T>)
    ensures
        ({
            let (ws2, q2) = engine_next(ws, q, EngineEvent::Poll);
            q2.len() > 0 ==> all_in_flight(ws2)
        }),
{
    lemma_sweep_properties(ws, q, 0);
}

/// Context recycling: across an arbitrary sequence of engine events, each
/// worker still holds the very context — and so the very client instance —
/// it was created with.
pub proof fn lemma_contexts_recycled<T>(
    ws: Seq<StreamWrapper<T>>,
    q: Seq<T>,
    evs: Seq<EngineEvent<T>>,
)
    ensures
        same_contexts(ws, engine_run(ws, q, evs).0),
{
    lemma_run_preserves_pool(ws, q, evs);
}

/// Builds a pool of `n` fresh workers, all idle, the worker at slot `j`
/// owning the context numbered `j`: one exclusive client instance per
/// worker, none shared.
pub fn spawn_workers<T>(n: usize) -> (s: FutureSelector<T>)
    ensures
        s@.len() == n,
        forall|j: int|
            0 <= j < n ==> s@[j].phase is Idle && s@[j].context == (RunnerContext {
                client_id: j as u64,
            }),
{
    let mut s = FutureSelector::new();
    let mut j: usize = 0;
    while j < n
        invariant
            j <= n,
            s@.len() == j,
            forall|k: int|
                0 <= k < j ==> s@[k].phase is Idle && s@[k].context == (RunnerContext {
                    client_id: k as u64,
                }),
        decreases n - j,
    {
        s.push(StreamWrapper::new(RunnerContext { client_id: j as u64 }));
        j = j + 1;
    }
    s
}

} // verus!
