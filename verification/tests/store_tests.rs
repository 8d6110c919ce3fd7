use pixiv_spider::artwork::Artwork;
use pixiv_spider::store_model::StoreModel;

fn record(id: i64) -> Artwork {
    Artwork {
        artwork_id: id,
        caption: None,
        create_date: None,
        artwork_type: None,
        height: None,
        width: None,
        sanity_level: None,
        title: None,
        total_bookmarks: None,
        total_view: None,
        last_update_time: None,
        image_urls: None,
        user: None,
        tags: None,
    }
}

#[test]
fn upsert_id_inserts_once_then_is_a_noop() {
    let mut store = StoreModel::new();
    assert!(store.upsert_id(5));
    assert!(!store.upsert_id(5));
    assert_eq!(store.len(), 1);
    let rec = store.get(5).unwrap();
    assert_eq!(rec.artwork_id, 5);
    assert_eq!(rec.last_update_time, None);
}

#[test]
fn delete_one_removes_the_record_and_nothing_else() {
    let mut store = StoreModel::new();
    store.upsert_id(1);
    store.upsert_id(2);
    store.upsert_id(3);
    assert!(store.delete_one(2));
    assert_eq!(store.len(), 2);
    assert!(store.get(2).is_none());
    assert!(store.get(1).is_some());
    assert!(store.get(3).is_some());
}

#[test]
fn delete_of_a_missing_record_changes_nothing() {
    let mut store = StoreModel::new();
    store.upsert_id(1);
    assert!(!store.delete_one(9));
    assert_eq!(store.len(), 1);
}

#[test]
fn set_last_update_time_touches_only_the_stamp() {
    let mut store = StoreModel::new();
    let mut art = record(4);
    art.title = Some(String::from("kept title"));
    store.upsert_artwork(art);
    store.set_last_update_time(4, 777);
    let rec = store.get(4).unwrap();
    assert_eq!(rec.last_update_time, Some(777));
    assert_eq!(rec.title.as_deref(), Some("kept title"));
}

#[test]
fn upsert_artwork_merges_provided_fields_and_keeps_the_rest() {
    let mut store = StoreModel::new();
    let mut stored = record(7);
    stored.title = Some(String::from("old title"));
    stored.caption = Some(String::from("kept caption"));
    store.upsert_artwork(stored);

    let mut update = record(7);
    update.title = Some(String::from("new title"));
    store.upsert_artwork(update);

    assert_eq!(store.len(), 1);
    let rec = store.get(7).unwrap();
    assert_eq!(rec.title.as_deref(), Some("new title"));
    assert_eq!(rec.caption.as_deref(), Some("kept caption"));
}

#[test]
fn upsert_artwork_inserts_when_the_store_has_no_record() {
    let mut store = StoreModel::new();
    let mut art = record(8);
    art.title = Some(String::from("fresh"));
    store.upsert_artwork(art);
    assert_eq!(store.len(), 1);
    assert_eq!(store.get(8).unwrap().title.as_deref(), Some("fresh"));
}

#[test]
fn select_never_fetched_respects_limit_and_store_order() {
    let mut store = StoreModel::new();
    for id in [10, 11, 12, 13] {
        store.upsert_id(id);
    }
    store.set_last_update_time(11, 1);
    assert_eq!(store.select_never_fetched(2), vec![10, 12]);
    assert_eq!(store.select_never_fetched(10), vec![10, 12, 13]);
}

#[test]
fn select_stale_uses_a_strict_24_hour_window() {
    let now: u64 = 1_000_000;
    let mut store = StoreModel::new();
    store.upsert_id(1);
    store.upsert_id(2);
    store.upsert_id(3);
    // exactly 24 hours old: not yet eligible (the window must elapse)
    store.set_last_update_time(1, now - 86400);
    // one second older than the window: eligible
    store.set_last_update_time(2, now - 86401);
    // never fetched: not a stale record
    assert_eq!(store.select_stale(now, 10), vec![2]);
}
