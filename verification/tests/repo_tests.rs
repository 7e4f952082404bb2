use saveit::config::FormatStandard;
use saveit::date::Date;
use saveit::repo::Repository;
use saveit::source::Source;
use saveit::store::{MemStore, PersistenceError};

fn record(title: &str, url: &str, author: &str) -> Source {
    Source {
        id: -1,
        title: String::from(title),
        url: String::from(url),
        author: String::from(author),
        published_date: Date::new(2024, 1, 1),
        viewed_date: Date::new(2024, 1, 1),
        published_date_unknown: true,
        comment: String::new(),
    }
}

#[test]
fn create_assigns_increasing_ids_from_one() {
    let mut repo = Repository::new();
    let id1 = repo.create(&record("a", "u1", "")).unwrap();
    let id2 = repo.create(&record("b", "u2", "")).unwrap();
    assert_eq!(id1, 1);
    assert_eq!(id2, 2);
}

#[test]
fn create_then_snapshot_round_trip() {
    // Round trip: after create(r), the refreshed snapshot holds a record
    // equal to r in every field except the id.
    let mut repo = Repository::new();
    let r = record("Example", "https://example.com", "Someone");
    repo.create(&r).unwrap();
    repo.refresh().unwrap();
    let snap = repo.snapshot();
    assert_eq!(snap.len(), 1);
    assert!(snap[0].eq_fields_except_id(&r));
    assert_eq!(snap[0].id, 1);
}

#[test]
fn inserted_record_formats_as_scenario_says() {
    let mut repo = Repository::new();
    let r = record("Example", "https://example.com", "");
    repo.create(&r).unwrap();
    let snap = repo.snapshot();
    let out = snap[0].format(&FormatStandard::Default, "").unwrap();
    assert_eq!(out, "[1] Unbekannt: Example URL: https://example.com [as of 01.01.2024]");
}

#[test]
fn update_replaces_record_and_refreshes_cache() {
    let mut repo = Repository::new();
    let id = repo.create(&record("old", "u", "a")).unwrap();
    let newer = record("new", "u2", "b");
    repo.update(id, &newer).unwrap();
    let snap = repo.snapshot();
    assert_eq!(snap.len(), 1);
    assert_eq!(snap[0].id, id);
    assert_eq!(snap[0].title, "new");
    assert_eq!(snap[0].url, "u2");
}

#[test]
fn update_missing_id_reports_not_found_and_changes_nothing() {
    let mut repo = Repository::new();
    repo.create(&record("a", "u", "")).unwrap();
    let e = repo.update(99, &record("x", "y", "")).unwrap_err();
    assert_eq!(e, PersistenceError::NotFound);
    let snap = repo.snapshot();
    assert_eq!(snap.len(), 1);
    assert_eq!(snap[0].title, "a");
}

#[test]
fn delete_removes_record_and_keeps_order() {
    let mut repo = Repository::new();
    let id1 = repo.create(&record("a", "u1", "")).unwrap();
    let id2 = repo.create(&record("b", "u2", "")).unwrap();
    let id3 = repo.create(&record("c", "u3", "")).unwrap();
    repo.delete(id2).unwrap();
    let snap = repo.snapshot();
    assert_eq!(snap.len(), 2);
    assert_eq!(snap[0].id, id1);
    assert_eq!(snap[0].title, "a");
    assert_eq!(snap[1].id, id3);
    assert_eq!(snap[1].title, "c");
}

#[test]
fn delete_missing_id_reports_not_found() {
    let mut repo = Repository::new();
    let e = repo.delete(1).unwrap_err();
    assert_eq!(e, PersistenceError::NotFound);
    assert_eq!(repo.snapshot().len(), 0);
}

#[test]
fn concurrent_update_and_delete_serialize_deterministically() {
    // Both serialized orders of update(A, v1) and delete(A) must reach a
    // definite state, the same on every run: here the record ends up gone
    // in either order, and each order's intermediate results are fixed.
    for _round in 0..3 {
        // update first, then delete
        let mut repo = Repository::new();
        let id = repo.create(&record("a", "u", "")).unwrap();
        assert!(repo.update(id, &record("v1", "u", "")).is_ok());
        assert!(repo.delete(id).is_ok());
        assert_eq!(repo.snapshot().len(), 0);

        // delete first, then update
        let mut repo = Repository::new();
        let id = repo.create(&record("a", "u", "")).unwrap();
        assert!(repo.delete(id).is_ok());
        assert_eq!(repo.update(id, &record("v1", "u", "")).unwrap_err(), PersistenceError::NotFound);
        assert_eq!(repo.snapshot().len(), 0);
    }
}

#[test]
fn snapshot_is_stale_until_refresh_only_through_repo_ops() {
    // Reads see a full snapshot; every successful mutation refreshes it.
    let mut repo = Repository::new();
    assert_eq!(repo.snapshot().len(), 0);
    repo.create(&record("a", "u", "")).unwrap();
    assert_eq!(repo.snapshot().len(), 1);
}

#[test]
fn mem_store_create_fetch_update_delete() {
    let mut store = MemStore::new();
    let id = store.create(&record("a", "u", "x"));
    assert_eq!(id, 1);
    let all = store.fetch_all();
    assert_eq!(all.len(), 1);
    assert_eq!(all[0].id, 1);
    assert_eq!(all[0].author, "x");
    store.update(id, &record("b", "u2", "y")).unwrap();
    let all = store.fetch_all();
    assert_eq!(all[0].title, "b");
    assert_eq!(all[0].id, 1);
    store.delete(id).unwrap();
    assert_eq!(store.fetch_all().len(), 0);
    assert_eq!(store.delete(id).unwrap_err(), PersistenceError::NotFound);
}
