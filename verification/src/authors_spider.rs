//! The author-catalog crawl: the second instantiation of the task-pool
//! pattern.
//!
//! Its refill pass lists the distinct known authors of the stored records;
//! each task asks the external client for all works of one author; each
//! outcome upserts every discovered identifier as a placeholder record,
//! counting how many were newly inserted. The worker pool and queue are
//! the same generic machinery as the bulk-refresh crawl's, instantiated
//! with the author reference as the task payload.

use vstd::prelude::*;

use crate::artwork::{Artwork, PixivUser};
use crate::config::GlobalConfig;
use crate::future_selector::{spawn_workers, FutureSelector};
use crate::store_model::{has_id, upsert_id_result, StoreModel};

verus! {

/// What the external listing of one author's works reported.
pub enum AuthorReply {
    /// The identifiers of every work found for the author.
    Listed(Vec<i64>),
    /// A network, protocol or parse failure: nothing is known.
    Failed,
}

/// The classified result of one author task.
pub enum AuthorOutcome {
    /// The author's works were listed: the author and the identifiers
    /// discovered.
    Listed(PixivUser, Vec<i64>),
    /// A transient failure on this author; the task is not requeued.
    TransientError(PixivUser),
    /// The queue had nothing to pop: a scheduling signal, not a failure.
    EmptyQueue,
}

/// The outcome a reply classifies into, given the author it answers.
pub open spec fn spec_author_outcome(u: PixivUser, reply: AuthorReply) -> AuthorOutcome {
    match reply {
        AuthorReply::Listed(ids) => AuthorOutcome::Listed(u, ids),
        AuthorReply::Failed => AuthorOutcome::TransientError(u),
    }
}

/// Classifies the reply of the listing that ran the task for author `u`.
pub fn author_outcome(u: PixivUser, reply: AuthorReply) -> (o: AuthorOutcome)
    ensures
        o == spec_author_outcome(u, reply),
{
    match reply {
        AuthorReply::Listed(ids) => AuthorOutcome::Listed(u, ids),
        AuthorReply::Failed => AuthorOutcome::TransientError(u),
    }
}

/// Builds the author crawl's worker pool: one idle worker — one exclusive
/// client context — per configured execution slot.
pub fn new_author_pool(config: &GlobalConfig) -> (s: FutureSelector<PixivUser>)
    ensures
        s@.len() == config.user_detail_thread_num,
        forall|j: int| 0 <= j < s@.len() ==> s@[j].phase is Idle,
{
    spawn_workers(config.user_detail_thread_num as usize)
}

/// The distinct authors found among the records `s[i..]`, skipping those
/// whose identifier was already listed in `seen`: for each author the
/// first record carrying it contributes one entry holding the identifier
/// and that record's author name.
pub open spec fn authors_from(s: Seq<Artwork>, i: int, seen: Seq<i64>) -> Seq<PixivUser>
    decreases s.len() - i,
{
    if i < 0 || i >= s.len() {
        Seq::empty()
    } else {
        match s[i].user {
            Some(u) => match u.user_id {
                Some(uid) => if seen.contains(uid) {
                    authors_from(s, i + 1, seen)
                } else {
                    seq![PixivUser { account: None, user_id: Some(uid), name: u.name }]
                        + authors_from(s, i + 1, seen.push(uid))
                },
                None => authors_from(s, i + 1, seen),
            },
            None => authors_from(s, i + 1, seen),
        }
    }
}

/// Whether `v` holds the value `x`.
fn contains_i64(v: &Vec<i64>, x: i64) -> (r: bool)
    ensures
        r == v@.contains(x),
{
    let n = v.len();
    let mut i: usize = 0;
    while i < n
        invariant
            i <= n,
            n == v@.len(),
            forall|j: int| 0 <= j < i ==> v@[j] != x,
        decreases n - i,
    {
        if v[i] == x {
            return true;
        }
        i = i + 1;
    }
    false
}

/// The refill pass of the author crawl: lists the distinct known authors
/// of the stored records, deduplicated by identifier, each carrying the
/// name its first record gives.
pub fn load_authors(store: &StoreModel) -> (r: Vec<PixivUser>)
    ensures
        r@ == authors_from(store@, 0, Seq::empty()),
{
    let n = store.len();
    let mut out: Vec<PixivUser> = Vec::new();
    let mut seen: Vec<i64> = Vec::new();
    let mut i: usize = 0;
    while i < n
        invariant
            i <= n,
            n == store@.len(),
            authors_from(store@, 0, Seq::empty()) == out@ + authors_from(
                store@,
                i as int,
                seen@,
            ),
        decreases n - i,
    {
        let ghost pre_out = out@;
        let ghost pre_seen = seen@;
        let rec = store.record_at(i);
        match &rec.user {
            Some(u) => {
                match u.user_id {
                    Some(uid) => {
                        if !contains_i64(&seen, uid) {
                            let name = match &u.name {
                                Some(nm) => Some(nm.clone()),
                                None => None,
                            };
                            out.push(PixivUser { account: None, user_id: Some(uid), name });
                            seen.push(uid);
                            proof {
                                assert(pre_out + authors_from(store@, i as int, pre_seen)
                                    =~= out@ + authors_from(store@, i + 1, seen@));
                            }
                        }
                    },
                    None => {},
                }
            },
            None => {},
        }
        i = i + 1;
    }
    proof {
        assert(out@ + authors_from(store@, n as int, seen@) =~= out@);
    }
    out
}

/// The store after upserting every identifier of `ids` in turn.
pub open spec fn spec_upsert_all(s: Seq<Artwork>, ids: Seq<i64>) -> Seq<Artwork>
    decreases ids.len(),
{
    if ids.len() == 0 {
        s
    } else {
        spec_upsert_all(upsert_id_result(s, ids[0]), ids.drop_first())
    }
}

/// How many of those upserts insert a record the store did not have —
/// counting a duplicate identifier only at its first occurrence.
pub open spec fn spec_inserted_count(s: Seq<Artwork>, ids: Seq<i64>) -> int
    decreases ids.len(),
{
    if ids.len() == 0 {
        0
    } else {
        (if has_id(s, ids[0]) {
            0int
        } else {
            1int
        }) + spec_inserted_count(upsert_id_result(s, ids[0]), ids.drop_first())
    }
}

/// Upserts every discovered identifier as a placeholder record and counts
/// how many were newly inserted.
pub fn upsert_ids(store: &mut StoreModel, ids: &Vec<i64>) -> (inserted: usize)
    ensures
        final(store)@ == spec_upsert_all(old(store)@, ids@),
        inserted == spec_inserted_count(old(store)@, ids@),
        old(store).wf() ==> final(store).wf(),
{
    let n = ids.len();
    let mut inserted: usize = 0;
    let mut i: usize = 0;
    proof {
        assert(ids@.skip(0) =~= ids@);
    }
    while i < n
        invariant
            i <= n,
            n == ids@.len(),
            inserted <= i,
            spec_upsert_all(old(store)@, ids@) == spec_upsert_all(store@, ids@.skip(i as int)),
            spec_inserted_count(old(store)@, ids@) == inserted + spec_inserted_count(
                store@,
                ids@.skip(i as int),
            ),
            old(store).wf() ==> store.wf(),
        decreases n - i,
    {
        let was_inserted = store.upsert_id(ids[i]);
        if was_inserted {
            inserted = inserted + 1;
        }
        proof {
            assert(ids@.skip(i as int).drop_first() =~= ids@.skip(i + 1));
            assert(ids@.skip(i as int)[0] == ids@[i as int]);
        }
        i = i + 1;
    }
    proof {
        assert(ids@.skip(n as int) =~= Seq::<i64>::empty());
    }
    inserted
}

/// Routes one author outcome: a listed catalog upserts every discovered
/// identifier and reports the author together with how many works were
/// found and how many were newly inserted; a transient failure and the
/// empty-queue signal mutate nothing, and the failed task is not
/// requeued.
pub fn handle_author_outcome(store: &mut StoreModel, o: AuthorOutcome) -> (r: Option<
    (PixivUser, usize, usize),
>)
    ensures
        old(store).wf() ==> final(store).wf(),
        o is EmptyQueue ==> final(store)@ == old(store)@ && r is None,
        o is TransientError ==> final(store)@ == old(store)@ && r is None,
        o matches AuthorOutcome::Listed(u, ids) ==> final(store)@ == spec_upsert_all(
            old(store)@,
            ids@,
        ) && r == Some((u, ids@.len() as usize, spec_inserted_count(old(store)@, ids@) as usize)),
{
    match o {
        AuthorOutcome::EmptyQueue => None,
        AuthorOutcome::TransientError(_) => None,
        AuthorOutcome::Listed(u, ids) => {
            let found = ids.len();
            let inserted = upsert_ids(store, &ids);
            Some((u, found, inserted))
        },
    }
}

} // verus!
