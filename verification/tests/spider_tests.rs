use pixiv_spider::artwork::Artwork;
use pixiv_spider::artworks_spider::{
    fetch_outcome, load_tasks, ArtworksSpider, FetchReply, Outcome, UpdateArtworkTask,
};
use pixiv_spider::config::GlobalConfig;
use pixiv_spider::store_model::StoreModel;

fn config(workers: u32) -> GlobalConfig {
    GlobalConfig {
        mongo_url: String::new(),
        database: String::new(),
        collection: String::new(),
        proxy: String::new(),
        pixiv_cookie: String::new(),
        search_config_path: String::new(),
        search_thread_num: 1,
        user_detail_thread_num: 1,
        update_artwork_thread_num: workers,
    }
}

fn record(id: i64) -> Artwork {
    Artwork {
        artwork_id: id,
        caption: None,
        create_date: None,
        artwork_type: None,
        height: None,
        width: None,
        sanity_level: None,
        title: None,
        total_bookmarks: None,
        total_view: None,
        last_update_time: None,
        image_urls: None,
        user: None,
        tags: None,
    }
}

#[test]
fn fetch_outcome_classifies_each_reply() {
    let task = UpdateArtworkTask { artwork_id: 3, is_new: true };
    match fetch_outcome(task, FetchReply::Fetched(record(3))) {
        Outcome::Success(a, is_new) => {
            assert_eq!(a.artwork_id, 3);
            assert!(is_new);
        }
        _ => panic!("a fetched record classifies as a success"),
    }
    match fetch_outcome(task, FetchReply::NotExists) {
        Outcome::NotFound(id, is_new) => {
            assert_eq!(id, 3);
            assert!(is_new);
        }
        _ => panic!("a confirmed absence classifies as not-found"),
    }
    assert!(matches!(fetch_outcome(task, FetchReply::Failed), Outcome::TransientError));
}

#[test]
fn refill_selects_never_fetched_before_stale() {
    let now: u64 = 1_000_000;
    let mut store = StoreModel::new();
    store.upsert_id(1); // never fetched
    store.upsert_id(2);
    store.set_last_update_time(2, now - 90_000); // stale
    store.upsert_id(3);
    store.set_last_update_time(3, now - 10); // fresh
    let tasks = load_tasks(&store, now, 10);
    assert_eq!(
        tasks,
        vec![
            UpdateArtworkTask { artwork_id: 1, is_new: true },
            UpdateArtworkTask { artwork_id: 2, is_new: false },
        ]
    );
}

#[test]
fn refill_fills_the_batch_with_stale_records_when_nothing_is_new() {
    // No never-fetched record, five records stale by 25 hours, batch
    // size 3: exactly three stale records are selected, all tagged
    // not-new, in store order.
    let now: u64 = 2_000_000;
    let mut store = StoreModel::new();
    for id in [1, 2, 3, 4, 5] {
        store.upsert_id(id);
        store.set_last_update_time(id, now - 25 * 3600);
    }
    let tasks = load_tasks(&store, now, 3);
    assert_eq!(tasks.len(), 3);
    assert_eq!(
        tasks,
        vec![
            UpdateArtworkTask { artwork_id: 1, is_new: false },
            UpdateArtworkTask { artwork_id: 2, is_new: false },
            UpdateArtworkTask { artwork_id: 3, is_new: false },
        ]
    );
}

#[test]
fn refill_with_no_eligible_records_leaves_the_queue_empty_and_loops() {
    let now: u64 = 3_000_000;
    let mut store = StoreModel::new();
    store.upsert_id(1);
    store.set_last_update_time(1, now - 100); // fresh: not eligible
    let mut spider = ArtworksSpider::new(&config(2));
    // Two refill passes in a row: the queue stays empty and each pass
    // returns, so the orchestrator keeps looping instead of deadlocking.
    spider.refill_if_empty(&store, now, 100);
    assert_eq!(spider.queue.size(), 0);
    spider.refill_if_empty(&store, now, 100);
    assert_eq!(spider.queue.size(), 0);
    // Polling then surfaces the empty-queue scheduling signal.
    assert!(matches!(spider.poll(), Some(Outcome::EmptyQueue)));
}

#[test]
fn refill_skips_a_non_empty_queue() {
    let now: u64 = 3_000_000;
    let mut store = StoreModel::new();
    store.upsert_id(7); // eligible, but the queue is not empty
    let mut spider = ArtworksSpider::new(&config(1));
    spider.queue.push(UpdateArtworkTask { artwork_id: 42, is_new: true });
    spider.refill_if_empty(&store, now, 100);
    assert_eq!(spider.queue.size(), 1);
}

#[test]
fn transient_error_mutates_nothing_and_requeues_nothing() {
    let now: u64 = 4_000_000;
    let mut store = StoreModel::new();
    store.upsert_id(1);
    let mut spider = ArtworksSpider::new(&config(1));
    spider.queue.push(UpdateArtworkTask { artwork_id: 9, is_new: true });
    let progress = spider.handle_outcome(&mut store, Outcome::TransientError, now);
    assert!(progress.is_none());
    assert_eq!(store.len(), 1);
    assert_eq!(store.get(1).unwrap().last_update_time, None);
    assert_eq!(spider.queue.size(), 1); // the failed task was not requeued
    assert_eq!(spider.stats.total_fill_count, 0);
    assert_eq!(spider.stats.total_update_count, 0);
}

#[test]
fn not_found_for_a_new_record_deletes_it() {
    let now: u64 = 4_000_000;
    let mut store = StoreModel::new();
    store.upsert_id(5);
    let mut spider = ArtworksSpider::new(&config(1));
    let progress = spider.handle_outcome(&mut store, Outcome::NotFound(5, true), now);
    assert!(progress.is_none());
    assert!(store.get(5).is_none());
    assert_eq!(store.len(), 0);
}

#[test]
fn not_found_for_a_stale_record_restamps_it_without_touching_content() {
    let now: u64 = 4_000_000;
    let mut store = StoreModel::new();
    let mut stored = record(6);
    stored.title = Some(String::from("kept"));
    stored.last_update_time = Some(1);
    store.upsert_artwork(stored);
    let mut spider = ArtworksSpider::new(&config(1));
    let progress = spider.handle_outcome(&mut store, Outcome::NotFound(6, false), now);
    assert!(progress.is_none());
    let rec = store.get(6).unwrap();
    assert_eq!(rec.last_update_time, Some(now));
    assert_eq!(rec.title.as_deref(), Some("kept"));
}

#[test]
fn success_upserts_the_record_stamped_with_now() {
    let now: u64 = 5_000_000;
    let mut store = StoreModel::new();
    store.upsert_id(8);
    let mut spider = ArtworksSpider::new(&config(1));
    let mut fetched = record(8);
    fetched.title = Some(String::from("fetched title"));
    let progress = spider.handle_outcome(&mut store, Outcome::Success(fetched, true), now);
    assert!(progress.is_none());
    let rec = store.get(8).unwrap();
    assert_eq!(rec.last_update_time, Some(now));
    assert_eq!(rec.title.as_deref(), Some("fetched title"));
    assert_eq!(spider.stats.total_fill_count, 1);
    assert_eq!(spider.stats.total_update_count, 0);
}

#[test]
fn progress_is_reported_on_every_hundredth_success() {
    let now: u64 = 5_000_000;
    let mut store = StoreModel::new();
    let mut spider = ArtworksSpider::new(&config(1));
    for round in 1..=200u64 {
        let progress = spider.handle_outcome(&mut store, Outcome::Success(record(1), false), now);
        if round % 100 == 0 {
            assert_eq!(progress, Some(round));
        } else {
            assert!(progress.is_none());
        }
    }
    assert_eq!(spider.stats.total_update_count, 200);
}

#[test]
fn scenario_two_workers_route_not_found_and_success() {
    // Queue pre-seeded with a brand-new task for record 1 and a stale
    // task for record 2, two workers; the client reports record 1 absent
    // and returns fresh content for record 2. The store ends with record
    // 1 gone and record 2 carrying the new content and a fresh stamp.
    let now: u64 = 6_000_000;
    let mut store = StoreModel::new();
    store.upsert_id(1);
    let mut stored2 = record(2);
    stored2.title = Some(String::from("old content"));
    stored2.last_update_time = Some(1);
    store.upsert_artwork(stored2);

    let mut spider = ArtworksSpider::new(&config(2));
    spider.queue.push(UpdateArtworkTask { artwork_id: 1, is_new: true });
    spider.queue.push(UpdateArtworkTask { artwork_id: 2, is_new: false });

    assert!(spider.poll().is_none()); // both workers in flight
    assert_eq!(spider.queue.size(), 0);

    let o1 = spider.on_reply(0, FetchReply::NotExists);
    let progress1 = spider.handle_outcome(&mut store, o1, now);
    assert!(progress1.is_none());

    let mut fetched2 = record(2);
    fetched2.title = Some(String::from("new content"));
    let o2 = spider.on_reply(1, FetchReply::Fetched(fetched2));
    let progress2 = spider.handle_outcome(&mut store, o2, now);
    assert!(progress2.is_none());

    assert!(store.get(1).is_none());
    let rec2 = store.get(2).unwrap();
    assert_eq!(rec2.title.as_deref(), Some("new content"));
    assert_eq!(rec2.last_update_time, Some(now));
    assert_eq!(spider.stats.total_update_count, 1);
    assert_eq!(spider.stats.total_fill_count, 0);
}
