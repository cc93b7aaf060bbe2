use oauth_login::store::{CorrelationStore, StoreError};

fn put(store: &mut CorrelationStore, state: &str, verifier: &str, now: i64, ttl: u32) -> Result<(), StoreError> {
    store.put(state.to_string(), verifier.to_string(), now, ttl)
}

#[test]
fn new_store_is_empty() {
    let store = CorrelationStore::new(4);
    assert_eq!(store.len(), 0);
    assert_eq!(store.capacity(), 4);
    assert!(!store.contains("anything", 0));
}

#[test]
fn take_once_succeeds_exactly_once() {
    let mut store = CorrelationStore::new(4);
    assert_eq!(put(&mut store, "s1", "verifier-1", 1_000, 600), Ok(()));
    assert_eq!(store.take_once("s1", 1_010), Some("verifier-1".to_string()));
    assert_eq!(store.take_once("s1", 1_010), None);
    assert_eq!(store.take_once("s1", 1_011), None);
    assert_eq!(store.len(), 0);
}

#[test]
fn take_once_of_expired_entry_finds_nothing_and_consumes_it() {
    let mut store = CorrelationStore::new(4);
    assert_eq!(put(&mut store, "s1", "verifier-1", 1_000, 600), Ok(()));
    assert_eq!(store.take_once("s1", 1_600), None);
    assert_eq!(store.len(), 0);
    // a clock that runs backwards does not bring it back
    assert_eq!(store.take_once("s1", 1_000), None);
}

#[test]
fn entry_is_live_strictly_before_its_expiry() {
    let mut store = CorrelationStore::new(4);
    assert_eq!(put(&mut store, "s1", "v", 1_000, 600), Ok(()));
    assert!(store.contains("s1", 1_000));
    assert!(store.contains("s1", 1_599));
    assert!(!store.contains("s1", 1_600));
    assert!(!store.contains("s1", 9_999));
    assert_eq!(store.take_once("s1", 1_599), Some("v".to_string()));
}

#[test]
fn zero_ttl_entry_is_never_live() {
    let mut store = CorrelationStore::new(4);
    assert_eq!(put(&mut store, "s1", "v", 1_000, 0), Ok(()));
    assert!(!store.contains("s1", 1_000));
    assert_eq!(store.take_once("s1", 1_000), None);
}

#[test]
fn liveness_does_not_overflow_at_the_ends_of_time() {
    let mut store = CorrelationStore::new(4);
    assert_eq!(put(&mut store, "late", "v", i64::MAX, u32::MAX), Ok(()));
    assert!(store.contains("late", i64::MAX));
    assert_eq!(put(&mut store, "early", "w", i64::MIN, 1), Ok(()));
    assert!(store.contains("early", i64::MIN));
    assert!(!store.contains("early", i64::MIN + 1));
}

#[test]
fn take_once_leaves_other_entries() {
    let mut store = CorrelationStore::new(4);
    assert_eq!(put(&mut store, "s1", "v1", 10, 100), Ok(()));
    assert_eq!(put(&mut store, "s2", "v2", 10, 100), Ok(()));
    assert_eq!(put(&mut store, "s3", "v3", 10, 100), Ok(()));
    assert_eq!(store.take_once("s2", 20), Some("v2".to_string()));
    assert_eq!(store.len(), 2);
    assert_eq!(store.take_once("s1", 20), Some("v1".to_string()));
    assert_eq!(store.take_once("s3", 20), Some("v3".to_string()));
    assert_eq!(store.len(), 0);
}

#[test]
fn take_once_of_unknown_state_changes_nothing() {
    let mut store = CorrelationStore::new(4);
    assert_eq!(put(&mut store, "s1", "v1", 10, 100), Ok(()));
    assert_eq!(store.take_once("s", 20), None);
    assert_eq!(store.take_once("s11", 20), None);
    assert_eq!(store.take_once("", 20), None);
    assert_eq!(store.len(), 1);
    assert!(store.contains("s1", 20));
}

#[test]
fn put_refuses_a_live_duplicate_and_keeps_the_first() {
    let mut store = CorrelationStore::new(4);
    assert_eq!(put(&mut store, "s1", "first", 10, 100), Ok(()));
    assert_eq!(put(&mut store, "s1", "second", 20, 100), Err(StoreError::Occupied));
    assert_eq!(store.len(), 1);
    assert_eq!(store.take_once("s1", 30), Some("first".to_string()));
}

#[test]
fn put_over_an_expired_entry_is_a_fresh_write() {
    let mut store = CorrelationStore::new(4);
    assert_eq!(put(&mut store, "s1", "first", 10, 100), Ok(()));
    assert_eq!(put(&mut store, "s1", "second", 110, 100), Ok(()));
    assert_eq!(store.len(), 1);
    assert_eq!(store.take_once("s1", 120), Some("second".to_string()));
}

#[test]
fn put_refuses_when_full_of_live_entries() {
    let mut store = CorrelationStore::new(2);
    assert_eq!(put(&mut store, "s1", "v1", 10, 100), Ok(()));
    assert_eq!(put(&mut store, "s2", "v2", 10, 100), Ok(()));
    assert_eq!(put(&mut store, "s3", "v3", 20, 100), Err(StoreError::Full));
    assert_eq!(store.len(), 2);
    assert!(!store.contains("s3", 20));
    // once the first two have expired there is room again
    assert_eq!(put(&mut store, "s3", "v3", 110, 100), Ok(()));
    assert_eq!(store.len(), 1);
}

#[test]
fn store_without_capacity_refuses_every_write() {
    let mut store = CorrelationStore::new(0);
    assert_eq!(put(&mut store, "s1", "v1", 10, 100), Err(StoreError::Full));
    assert_eq!(store.len(), 0);
}

#[test]
fn put_drops_expired_entries_even_when_it_refuses() {
    let mut store = CorrelationStore::new(2);
    assert_eq!(put(&mut store, "old", "v0", 0, 5), Ok(()));
    assert_eq!(put(&mut store, "s1", "v1", 10, 100), Ok(()));
    assert_eq!(store.len(), 1);
    assert_eq!(put(&mut store, "s1", "again", 20, 100), Err(StoreError::Occupied));
    assert_eq!(store.len(), 1);
}

#[test]
fn purge_drops_exactly_the_expired_entries() {
    let mut store = CorrelationStore::new(8);
    assert_eq!(put(&mut store, "a", "va", 0, 10), Ok(()));
    assert_eq!(put(&mut store, "b", "vb", 0, 20), Ok(()));
    assert_eq!(put(&mut store, "c", "vc", 0, 30), Ok(()));
    store.purge(5);
    assert_eq!(store.len(), 3);
    store.purge(20);
    assert_eq!(store.len(), 1);
    assert!(store.contains("c", 20));
    assert_eq!(store.take_once("a", 20), None);
    assert_eq!(store.take_once("b", 20), None);
    assert_eq!(store.take_once("c", 20), Some("vc".to_string()));
}
