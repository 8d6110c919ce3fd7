//! The bulk-refresh crawl: its task payload, outcome classification,
//! refill policy and outcome routing.
//!
//! The orchestrator loop around these pieces runs outside this library,
//! because awaiting the network is where it suspends. One iteration is:
//! refill the queue from the store when it is observed empty, poll the
//! worker pool, await whichever in-flight fetch finishes first, classify
//! its reply against the task, and route the outcome into a store mutation
//! and the progress counters. Everything the iteration decides is here,
//! with the network reply taken as an argument.

use vstd::prelude::*;

use crate::artwork::Artwork;
use crate::config::GlobalConfig;
use crate::future_selector::{completed, spawn_workers, sweep, FutureSelector};
use crate::store_model::{
    is_stale, never_fetched, never_fetched_ids_from, stale_ids_from, store_deleted,
    store_touched, store_upserted, StoreModel,
};
use crate::task_queue::TaskQueue;

verus! {

/// One unit of refresh work: which record to fetch, and whether it was
/// selected as brand-new (never fetched) or as stale.
#[derive(Clone, Copy, PartialEq, Eq, Structural, Debug)]
pub struct UpdateArtworkTask {
    pub artwork_id: i64,
    pub is_new: bool,
}

/// What the external fetch of one record reported.
pub enum FetchReply {
    /// The fetch succeeded and parsed into a record.
    Fetched(Artwork),
    /// The remote side confirmed the record does not exist.
    NotExists,
    /// A network, protocol or parse failure: nothing is known about the
    /// record.
    Failed,
}

/// The classified result of one task execution, consumed once by the
/// orchestrator and routed into a store mutation.
pub enum Outcome {
    /// A record was fetched; the flag tells whether its task was selected
    /// as brand-new.
    Success(Artwork, bool),
    /// The record is confirmed absent upstream: the task's identifier and
    /// its brand-new flag.
    NotFound(i64, bool),
    /// A transient failure; the task is not requeued.
    TransientError,
    /// The queue had nothing to pop: a scheduling signal, not a failure.
    EmptyQueue,
}

/// The outcome a reply classifies into, given the task it answers.
pub open spec fn spec_fetch_outcome(t: UpdateArtworkTask, reply: FetchReply) -> Outcome {
    match reply {
        FetchReply::Fetched(a) => Outcome::Success(a, t.is_new),
        FetchReply::NotExists => Outcome::NotFound(t.artwork_id, t.is_new),
        FetchReply::Failed => Outcome::TransientError,
    }
}

/// Classifies the reply of the fetch that ran task `t`.
pub fn fetch_outcome(t: UpdateArtworkTask, reply: FetchReply) -> (o: Outcome)
    ensures
        o == spec_fetch_outcome(t, reply),
{
    match reply {
        FetchReply::Fetched(a) => Outcome::Success(a, t.is_new),
        FetchReply::NotExists => Outcome::NotFound(t.artwork_id, t.is_new),
        FetchReply::Failed => Outcome::TransientError,
    }
}

/// The refill selection: up to `cache_size` never-fetched records tagged
/// brand-new, then — only if fewer were found — stale records filling the
/// batch up, tagged not-new.
pub open spec fn spec_refill_tasks(s: Seq<Artwork>, now: u64, cache_size: int) -> Seq<
    UpdateArtworkTask,
> {
    let new_ids = never_fetched_ids_from(s, 0, cache_size);
    let stale_ids = if new_ids.len() < cache_size {
        stale_ids_from(s, 0, cache_size - new_ids.len(), now)
    } else {
        Seq::empty()
    };
    new_ids.map_values(|id: i64| UpdateArtworkTask { artwork_id: id, is_new: true })
        + stale_ids.map_values(|id: i64| UpdateArtworkTask { artwork_id: id, is_new: false })
}

/// Turns the selected identifiers into tasks tagged `is_new`.
fn ids_to_tasks(ids: Vec<i64>, is_new: bool) -> (r: Vec<UpdateArtworkTask>)
    ensures
        r@ == ids@.map_values(
            |id: i64| UpdateArtworkTask { artwork_id: id, is_new: is_new },
        ),
{
    let n = ids.len();
    let mut out: Vec<UpdateArtworkTask> = Vec::new();
    let mut i: usize = 0;
    while i < n
        invariant
            i <= n,
            n == ids@.len(),
            out@ == ids@.subrange(0, i as int).map_values(
                |id: i64| UpdateArtworkTask { artwork_id: id, is_new: is_new },
            ),
        decreases n - i,
    {
        out.push(UpdateArtworkTask { artwork_id: ids[i], is_new });
        proof {
            assert(ids@.subrange(0, i + 1) =~= ids@.subrange(0, i as int).push(ids@[i as int]));
            assert(out@ =~= ids@.subrange(0, i + 1).map_values(
                |id: i64| UpdateArtworkTask { artwork_id: id, is_new: is_new },
            ));
        }
        i = i + 1;
    }
    proof {
        assert(ids@.subrange(0, n as int) =~= ids@);
    }
    out
}

/// Selects one refill batch from the store: first up to `cache_size`
/// never-fetched records tagged brand-new, then, if fewer were found,
/// stale records filling the batch up, tagged not-new.
pub fn load_tasks(store: &StoreModel, now: u64, cache_size: usize) -> (r: Vec<UpdateArtworkTask>)
    ensures
        r@ == spec_refill_tasks(store@, now, cache_size as int),
{
    let new_ids = store.select_never_fetched(cache_size);
    let found = new_ids.len();
    let mut tasks = ids_to_tasks(new_ids, true);
    if found < cache_size {
        let stale_ids = store.select_stale(now, cache_size - found);
        let mut stale_tasks = ids_to_tasks(stale_ids, false);
        tasks.append(&mut stale_tasks);
    } else {
        proof {
            assert(tasks@ =~= spec_refill_tasks(store@, now, cache_size as int));
        }
    }
    tasks
}

/// No never-fetched record among `s[i..]` means the never-fetched
/// selection from there is empty.
proof fn lemma_never_fetched_none(s: Seq<Artwork>, i: int, limit: int)
    requires
        0 <= i <= s.len(),
        forall|k: int| i <= k < s.len() ==> !never_fetched(s[k]),
    ensures
        never_fetched_ids_from(s, i, limit) == Seq::<i64>::empty(),
    decreases s.len() - i,
{
    if i < s.len() {
        lemma_never_fetched_none(s, i + 1, limit);
    }
}

/// No stale record among `s[i..]` means the stale selection from there is
/// empty.
proof fn lemma_stale_none(s: Seq<Artwork>, i: int, limit: int, now: u64)
    requires
        0 <= i <= s.len(),
        forall|k: int| i <= k < s.len() ==> !is_stale(s[k], now),
    ensures
        stale_ids_from(s, i, limit, now) == Seq::<i64>::empty(),
    decreases s.len() - i,
{
    if i < s.len() {
        lemma_stale_none(s, i + 1, limit, now);
    }
}

/// Refill idempotence under no new data: when the store has no eligible
/// record — none never fetched, none stale — a refill pass selects
/// nothing, so a drained queue stays empty and the orchestrator simply
/// polls again instead of deadlocking.
pub proof fn lemma_refill_empty_when_none_eligible(s: Seq<Artwork>, now: u64, cache_size: int)
    requires
        forall|k: int| 0 <= k < s.len() ==> !never_fetched(s[k]) && !is_stale(s[k], now),
    ensures
        spec_refill_tasks(s, now, cache_size) == Seq::<UpdateArtworkTask>::empty(),
{
    lemma_never_fetched_none(s, 0, cache_size);
    lemma_stale_none(s, 0, cache_size, now);
    assert(spec_refill_tasks(s, now, cache_size) =~= Seq::<UpdateArtworkTask>::empty());
}

/// The progress counters of one crawl type: how many brand-new records
/// were filled in and how many existing ones were refreshed.
pub struct SpiderStats {
    pub total_fill_count: u64,
    pub total_update_count: u64,
}

/// A fetched record stamped with the time of its upsert.
pub open spec fn spec_stamped(a: Artwork, now: u64) -> Artwork {
    Artwork { last_update_time: Some(now), ..a }
}

/// One crawl type's engine state: the shared task queue, the worker pool,
/// and the progress counters. The orchestrator loop outside the library
/// drives it: refill, poll, await one fetch, classify, route.
pub struct ArtworksSpider {
    pub queue: TaskQueue<UpdateArtworkTask>,
    pub selector: FutureSelector<UpdateArtworkTask>,
    pub stats: SpiderStats,
}

impl ArtworksSpider {
    /// Sets the engine up with an empty queue and one idle worker — one
    /// exclusive client context — per configured execution slot.
    pub fn new(config: &GlobalConfig) -> (s: ArtworksSpider)
        ensures
            s.queue@ == Seq::<UpdateArtworkTask>::empty(),
            s.selector@.len() == config.update_artwork_thread_num,
            forall|j: int| 0 <= j < s.selector@.len() ==> s.selector@[j].phase is Idle,
            s.stats.total_fill_count == 0,
            s.stats.total_update_count == 0,
    {
        ArtworksSpider {
            queue: TaskQueue::new(),
            selector: spawn_workers(config.update_artwork_thread_num as usize),
            stats: SpiderStats { total_fill_count: 0, total_update_count: 0 },
        }
    }

    /// Refills the queue from the store when it is observed empty; a
    /// non-empty queue is left alone. The workers and counters are
    /// untouched.
    pub fn refill_if_empty(&mut self, store: &StoreModel, now: u64, cache_size: usize)
        ensures
            final(self).selector == old(self).selector,
            final(self).stats == old(self).stats,
            old(self).queue@.len() > 0 ==> final(self).queue@ == old(self).queue@,
            old(self).queue@.len() == 0 ==> final(self).queue@ == spec_refill_tasks(
                store@,
                now,
                cache_size as int,
            ),
    {
        if self.queue.size() == 0 {
            let tasks = load_tasks(store, now, cache_size);
            let ghost t = tasks@;
            self.queue.push_all(tasks);
            proof {
                assert(self.queue@ =~= t);
            }
        }
    }

    /// Polls the pool: every idle worker starts a fetch by popping the
    /// queue. Returns the empty-queue outcome when some worker found
    /// nothing to pop, `None` — all workers in flight, the caller awaits —
    /// otherwise.
    pub fn poll(&mut self) -> (r: Option<Outcome>)
        ensures
            final(self).stats == old(self).stats,
            ({
                let (ws2, q2, hit_empty) = sweep(old(self).selector@, old(self).queue@, 0);
                &&& final(self).selector@ == ws2
                &&& final(self).queue@ == q2
                &&& r == (if hit_empty {
                    Some(Outcome::EmptyQueue)
                } else {
                    None::<Outcome>
                })
            }),
    {
        let hit_empty = self.selector.poll_start(&mut self.queue);
        if hit_empty {
            Some(Outcome::EmptyQueue)
        } else {
            None
        }
    }

    /// Takes the completion of worker `i`'s fetch and classifies its reply
    /// against the task that worker was running. Only that worker is
    /// advanced; queue and counters are untouched.
    pub fn on_reply(&mut self, i: usize, reply: FetchReply) -> (o: Outcome)
        requires
            i < old(self).selector@.len(),
            old(self).selector@[i as int].phase is InFlight,
        ensures
            final(self).queue == old(self).queue,
            final(self).stats == old(self).stats,
            final(self).selector@ == completed(old(self).selector@, i as int),
            o == spec_fetch_outcome(old(self).selector@[i as int].phase->0, reply),
    {
        let task = self.selector.complete(i);
        fetch_outcome(task, reply)
    }

    /// Routes one outcome into its store mutation and bookkeeping:
    /// a brand-new record confirmed absent is deleted; a stale one
    /// confirmed absent is re-stamped so it is not reselected before the
    /// staleness window elapses again; a fetched record is stamped with
    /// `now` and upserted, counting new against refreshed; a transient
    /// error and the empty-queue signal mutate nothing, and the failed
    /// task is not requeued. Returns the progress count to report when a
    /// success counter reaches a multiple of 100.
    pub fn handle_outcome(&mut self, store: &mut StoreModel, o: Outcome, now: u64) -> (progress:
        Option<u64>)
        requires
            old(self).stats.total_fill_count < u64::MAX,
            old(self).stats.total_update_count < u64::MAX,
        ensures
            final(self).queue == old(self).queue,
            final(self).selector == old(self).selector,
            old(store).wf() ==> final(store).wf(),
            o is EmptyQueue ==> final(store)@ == old(store)@ && final(self).stats == old(
                self,
            ).stats && progress is None,
            o is TransientError ==> final(store)@ == old(store)@ && final(self).stats == old(
                self,
            ).stats && progress is None,
            o matches Outcome::NotFound(id, is_new) ==> final(self).stats == old(self).stats
                && progress is None && (if is_new {
                store_deleted(old(store)@, final(store)@, id)
            } else {
                store_touched(old(store)@, final(store)@, id, now)
            }),
            o matches Outcome::Success(a, is_new) ==> store_upserted(
                old(store)@,
                final(store)@,
                spec_stamped(a, now),
            ) && (if is_new {
                final(self).stats == (SpiderStats {
                    total_fill_count: (old(self).stats.total_fill_count + 1) as u64,
                    ..old(self).stats
                }) && progress == (if (old(self).stats.total_fill_count + 1) % 100 == 0 {
                    Some((old(self).stats.total_fill_count + 1) as u64)
                } else {
                    None::<u64>
                })
            } else {
                final(self).stats == (SpiderStats {
                    total_update_count: (old(self).stats.total_update_count + 1) as u64,
                    ..old(self).stats
                }) && progress == (if (old(self).stats.total_update_count + 1) % 100 == 0 {
                    Some((old(self).stats.total_update_count + 1) as u64)
                } else {
                    None::<u64>
                })
            }),
    {
        match o {
            Outcome::EmptyQueue => None,
            Outcome::TransientError => None,
            Outcome::NotFound(id, is_new) => {
                if is_new {
                    let _ = store.delete_one(id);
                } else {
                    store.set_last_update_time(id, now);
                }
                None
            },
            Outcome::Success(mut artwork, is_new) => {
                artwork.last_update_time = Some(now);
                store.upsert_artwork(artwork);
                if is_new {
                    self.stats.total_fill_count = self.stats.total_fill_count + 1;
                    if self.stats.total_fill_count % 100 == 0 {
                        Some(self.stats.total_fill_count)
                    } else {
                        None
                    }
                } else {
                    self.stats.total_update_count = self.stats.total_update_count + 1;
                    if self.stats.total_update_count % 100 == 0 {
                        Some(self.stats.total_update_count)
                    } else {
                        None
                    }
                }
            },
        }
    }
}

} // verus!
