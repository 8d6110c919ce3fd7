//! The store, as the engine sees it: records keyed by their identifier,
//! with the query and mutation primitives the orchestrator issues.
//!
//! The durable store itself is an external collaborator; this model pins
//! down exactly what each query selects and what each mutation changes, so
//! the outcome-routing contracts can say precisely what happens to the
//! store. The binary translates each primitive to the real store's calls.

use vstd::prelude::*;

use crate::artwork::Artwork;

verus! {

/// The minimum age, in seconds, a previously-fetched record must reach
/// before it is eligible for re-fetch.
pub const STALENESS_WINDOW_SECS: u64 = 86400;

/// Whether some record of `s` carries the identifier `id`.
pub open spec fn has_id(s: Seq<Artwork>, id: i64) -> bool {
    exists|k: int| 0 <= k < s.len() && s[k].artwork_id == id
}

/// A record never fetched so far: it carries no update stamp yet.
pub open spec fn never_fetched(rec: Artwork) -> bool {
    rec.last_update_time is None
}

/// A record whose last fetch lies more than the staleness window before
/// `now`.
pub open spec fn is_stale(rec: Artwork, now: u64) -> bool {
    rec.last_update_time matches Some(t) && t + STALENESS_WINDOW_SECS < now
}

/// The identifiers of the first up-to-`limit` never-fetched records among
/// `s[i..]`, in store order.
pub open spec fn never_fetched_ids_from(s: Seq<Artwork>, i: int, limit: int) -> Seq<i64>
    decreases s.len() - i,
{
    if i < 0 || i >= s.len() || limit <= 0 {
        Seq::empty()
    } else if never_fetched(s[i]) {
        seq![s[i].artwork_id] + never_fetched_ids_from(s, i + 1, limit - 1)
    } else {
        never_fetched_ids_from(s, i + 1, limit)
    }
}

/// The identifiers of the first up-to-`limit` stale records among
/// `s[i..]`, in store order.
pub open spec fn stale_ids_from(s: Seq<Artwork>, i: int, limit: int, now: u64) -> Seq<i64>
    decreases s.len() - i,
{
    if i < 0 || i >= s.len() || limit <= 0 {
        Seq::empty()
    } else if is_stale(s[i], now) {
        seq![s[i].artwork_id] + stale_ids_from(s, i + 1, limit - 1, now)
    } else {
        stale_ids_from(s, i + 1, limit, now)
    }
}

/// The store after an upsert of the bare identifier `id`: unchanged when a
/// record with that identifier exists, extended by a record holding only
/// `id` when none does.
pub open spec fn upsert_id_result(s: Seq<Artwork>, id: i64) -> Seq<Artwork> {
    if has_id(s, id) {
        s
    } else {
        s.push(Artwork::spec_blank(id))
    }
}

/// How a deletion of `id` relates the store before to the store after:
/// the one record carrying `id` is gone, everything else is untouched.
pub open spec fn store_deleted(pre: Seq<Artwork>, post: Seq<Artwork>, id: i64) -> bool {
    if has_id(pre, id) {
        exists|k: int| 0 <= k < pre.len() && pre[k].artwork_id == id && post == pre.remove(k)
    } else {
        post == pre
    }
}

/// How stamping `id` with the update time `now` relates the store before
/// to the store after: that record's `last_update_time` becomes `now`, its
/// other fields and every other record are untouched.
pub open spec fn store_touched(pre: Seq<Artwork>, post: Seq<Artwork>, id: i64, now: u64) -> bool {
    if has_id(pre, id) {
        exists|k: int|
            0 <= k < pre.len() && pre[k].artwork_id == id && post == pre.update(
                k,
                Artwork { last_update_time: Some(now), ..pre[k] },
            )
    } else {
        post == pre
    }
}

/// How an upsert of the fetched record `art` relates the store before to
/// the store after: the fields `art` provides are merged into the record
/// with the same identifier, or `art` is inserted whole when the store has
/// none.
pub open spec fn store_upserted(pre: Seq<Artwork>, post: Seq<Artwork>, art: Artwork) -> bool {
    if has_id(pre, art.artwork_id) {
        exists|k: int|
            0 <= k < pre.len() && pre[k].artwork_id == art.artwork_id && post == pre.update(
                k,
                Artwork::spec_merge(pre[k], art),
            )
    } else {
        post == pre.push(art)
    }
}

/// The store's records, viewed as the sequence of records in store order.
pub struct StoreModel {
    records: Vec<Artwork>,
}

impl View for StoreModel {
    type V = Seq<Artwork>;

    closed spec fn view(&self) -> Seq<Artwork> {
        self.records@
    }
}

impl StoreModel {
    /// Each identifier keys at most one record.
    pub open spec fn wf(self) -> bool {
        forall|i: int, j: int|
            0 <= i < j < self@.len() ==> self@[i].artwork_id != self@[j].artwork_id
    }

    /// Creates an empty store.
    pub fn new() -> (s: StoreModel)
        ensures
            s@ == Seq::<Artwork>::empty(),
            s.wf(),
    {
        StoreModel { records: Vec::new() }
    }

    /// The number of records held.
    pub fn len(&self) -> (n: usize)
        ensures
            n == self@.len(),
    {
        self.records.len()
    }

    /// The record at position `i` in store order.
    pub fn record_at(&self, i: usize) -> (r: &Artwork)
        requires
            i < self@.len(),
        ensures
            *r == self@[i as int],
    {
        &self.records[i]
    }

    /// The position of the record carrying `id`, if any.
    fn find_index(&self, id: i64) -> (r: Option<usize>)
        ensures
            r matches Some(k) ==> k < self@.len() && self@[k as int].artwork_id == id,
            r is None ==> !has_id(self@, id),
    {
        let n = self.records.len();
        let mut i: usize = 0;
        while i < n
            invariant
                i <= n,
                n == self@.len(),
                forall|j: int| 0 <= j < i ==> self@[j].artwork_id != id,
            decreases n - i,
        {
            if self.records[i].artwork_id == id {
                return Some(i);
            }
            i = i + 1;
        }
        None
    }

    /// Looks a record up by its identifier.
    pub fn get(&self, id: i64) -> (r: Option<&Artwork>)
        ensures
            r is Some <==> has_id(self@, id),
            r matches Some(a) ==> a.artwork_id == id && exists|k: int|
                0 <= k < self@.len() && self@[k] == *a,
    {
        match self.find_index(id) {
            Some(k) => Some(&self.records[k]),
            None => None,
        }
    }

    /// Deletes the record carrying `id`, if the store has one; reports
    /// whether something was deleted.
    pub fn delete_one(&mut self, id: i64) -> (deleted: bool)
        ensures
            store_deleted(old(self)@, final(self)@, id),
            deleted == has_id(old(self)@, id),
            old(self).wf() ==> final(self).wf() && !has_id(final(self)@, id),
    {
        match self.find_index(id) {
            Some(k) => {
                let ghost pre = self@;
                let _ = self.records.remove(k);
                proof {
                    assert(self@ =~= pre.remove(k as int));
                    if old(self).wf() {
                        assert forall|m: int| 0 <= m < self@.len() implies self@[m].artwork_id
                            != id by {
                            if m < k {
                                assert(self@[m] == pre[m]);
                            } else {
                                assert(self@[m] == pre[m + 1]);
                            }
                        }
                    }
                }
                true
            },
            None => false,
        }
    }

    /// Stamps the record carrying `id` with the update time `now`, leaving
    /// every other field — and every other record — untouched. A missing
    /// record is left missing.
    pub fn set_last_update_time(&mut self, id: i64, now: u64)
        ensures
            store_touched(old(self)@, final(self)@, id, now),
            old(self).wf() ==> final(self).wf(),
    {
        match self.find_index(id) {
            Some(k) => {
                let rec = &mut self.records[k];
                rec.last_update_time = Some(now);
            },
            None => {},
        }
    }

    /// Upserts a fetched record: merges its provided fields into the
    /// stored record with the same identifier, or inserts it whole when
    /// the store has none.
    pub fn upsert_artwork(&mut self, art: Artwork)
        ensures
            store_upserted(old(self)@, final(self)@, art),
            old(self).wf() ==> final(self).wf(),
    {
        match self.find_index(art.artwork_id) {
            Some(k) => {
                let ghost merged = Artwork::spec_merge(self@[k as int], art);
                let rec = &mut self.records[k];
                rec.merge_from(art);
                proof {
                    assert(self@ =~= old(self)@.update(k as int, merged));
                }
            },
            None => {
                self.records.push(art);
            },
        }
    }

    /// Upserts a bare identifier: a no-op when the record exists, the
    /// insertion of a record holding only `id` when it does not. Reports
    /// whether a record was inserted.
    pub fn upsert_id(&mut self, id: i64) -> (inserted: bool)
        ensures
            final(self)@ == upsert_id_result(old(self)@, id),
            inserted == !has_id(old(self)@, id),
            old(self).wf() ==> final(self).wf(),
    {
        match self.find_index(id) {
            Some(_) => false,
            None => {
                self.records.push(Artwork::blank(id));
                true
            },
        }
    }

    /// Selects the identifiers of up to `limit` records never fetched so
    /// far, in store order.
    pub fn select_never_fetched(&self, limit: usize) -> (r: Vec<i64>)
        ensures
            r@ == never_fetched_ids_from(self@, 0, limit as int),
            r@.len() <= limit,
    {
        let n = self.records.len();
        let mut out: Vec<i64> = Vec::new();
        let mut i: usize = 0;
        while i < n && out.len() < limit
            invariant
                i <= n,
                n == self@.len(),
                out@.len() <= limit,
                never_fetched_ids_from(self@, 0, limit as int) == out@ + never_fetched_ids_from(
                    self@,
                    i as int,
                    limit - out@.len(),
                ),
            decreases n - i,
        {
            let ghost pre_out = out@;
            if self.records[i].last_update_time.is_none() {
                out.push(self.records[i].artwork_id);
                proof {
                    assert(pre_out + never_fetched_ids_from(self@, i as int, limit - pre_out.len())
                        =~= out@ + never_fetched_ids_from(self@, i + 1, limit - out@.len()));
                }
            }
            i = i + 1;
        }
        proof {
            assert(never_fetched_ids_from(self@, i as int, limit - out@.len()) =~= Seq::empty());
            assert(out@ + Seq::<i64>::empty() =~= out@);
        }
        out
    }

    /// Selects the identifiers of up to `limit` records whose last fetch
    /// lies more than the staleness window before `now`, in store order.
    pub fn select_stale(&self, now: u64, limit: usize) -> (r: Vec<i64>)
        ensures
            r@ == stale_ids_from(self@, 0, limit as int, now),
            r@.len() <= limit,
    {
        let n = self.records.len();
        let mut out: Vec<i64> = Vec::new();
        let mut i: usize = 0;
        while i < n && out.len() < limit
            invariant
                i <= n,
                n == self@.len(),
                out@.len() <= limit,
                stale_ids_from(self@, 0, limit as int, now) == out@ + stale_ids_from(
                    self@,
                    i as int,
                    limit - out@.len(),
                    now,
                ),
            decreases n - i,
        {
            let ghost pre_out = out@;
            let stale = match self.records[i].last_update_time {
                Some(t) => now >= STALENESS_WINDOW_SECS && t < now - STALENESS_WINDOW_SECS,
                None => false,
            };
            proof {
                assert(stale == is_stale(self@[i as int], now));
            }
            if stale {
                out.push(self.records[i].artwork_id);
                proof {
                    assert(pre_out + stale_ids_from(self@, i as int, limit - pre_out.len(), now)
                        =~= out@ + stale_ids_from(self@, i + 1, limit - out@.len(), now));
                }
            }
            i = i + 1;
        }
        proof {
            assert(stale_ids_from(self@, i as int, limit - out@.len(), now) =~= Seq::empty());
            assert(out@ + Seq::<i64>::empty() =~= out@);
        }
        out
    }
}

} // verus!
