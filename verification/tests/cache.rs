use ingest_pipeline::cache::{CachePolicy, KeyedCache, MAX_TIME_TO_LIVE_SECS};
use std::time::Duration;

fn runtime() -> tokio::runtime::Runtime {
    tokio::runtime::Builder::new_current_thread().enable_time().build().unwrap()
}

#[test]
fn bounded_policy_has_no_time_to_live() {
    let policy = CachePolicy::bounded(100);
    assert_eq!(policy, CachePolicy { max_capacity: 100, time_to_live_secs: None });
    assert!(policy.is_buildable());
}

#[test]
fn expiring_policy_keeps_both_bounds() {
    let policy = CachePolicy::expiring(100, 60);
    assert_eq!(policy, CachePolicy { max_capacity: 100, time_to_live_secs: Some(60) });
    assert!(policy.is_buildable());
}

#[test]
fn longest_time_to_live_is_a_thousand_years() {
    assert_eq!(MAX_TIME_TO_LIVE_SECS, 1000 * 365 * 24 * 3600);
    assert!(CachePolicy::expiring(1, MAX_TIME_TO_LIVE_SECS).is_buildable());
    assert!(!CachePolicy::expiring(1, MAX_TIME_TO_LIVE_SECS + 1).is_buildable());
}

#[test]
fn cache_is_built_at_the_longest_time_to_live() {
    let built = KeyedCache::<u64, u64>::build(CachePolicy::expiring(1, MAX_TIME_TO_LIVE_SECS));
    assert!(built.is_some());
}

#[test]
fn no_cache_is_built_over_the_longest_time_to_live() {
    let built = KeyedCache::<u64, u64>::build(CachePolicy::expiring(1, MAX_TIME_TO_LIVE_SECS + 1));
    assert!(built.is_none());
    let built = KeyedCache::<u64, u64>::build(CachePolicy::expiring(1, u64::MAX));
    assert!(built.is_none());
}

#[test]
fn built_cache_has_the_bounds_asked_for() {
    let policy = CachePolicy::expiring(25, 90);
    let keyed = KeyedCache::<String, u64>::build(policy).unwrap();
    assert_eq!(keyed.bounds(), policy);
    assert_eq!(keyed.handle().policy().max_capacity(), Some(25));
    assert_eq!(keyed.handle().policy().time_to_live(), Some(Duration::from_secs(90)));
}

#[test]
fn bounded_cache_has_no_time_to_live() {
    let keyed = KeyedCache::<String, u64>::build(CachePolicy::bounded(7)).unwrap();
    assert_eq!(keyed.handle().policy().max_capacity(), Some(7));
    assert_eq!(keyed.handle().policy().time_to_live(), None);
}

#[test]
fn inserted_value_is_read_back() {
    let keyed = KeyedCache::<String, u64>::build(CachePolicy::expiring(10, 60)).unwrap();
    let read = runtime().block_on(async {
        keyed.handle().insert("key".to_string(), 11).await;
        keyed.handle().get("key").await
    });
    assert_eq!(read, Some(11));
}

#[test]
fn key_never_inserted_is_a_miss() {
    let keyed = KeyedCache::<String, u64>::build(CachePolicy::bounded(10)).unwrap();
    let read = runtime().block_on(async { keyed.handle().get("absent").await });
    assert_eq!(read, None);
}

#[test]
fn entry_past_its_time_to_live_is_a_miss() {
    let keyed = KeyedCache::<String, u64>::build(CachePolicy::expiring(10, 1)).unwrap();
    let (fresh, stale) = runtime().block_on(async {
        keyed.handle().insert("key".to_string(), 5).await;
        let fresh = keyed.handle().get("key").await;
        tokio::time::sleep(Duration::from_millis(1300)).await;
        (fresh, keyed.handle().get("key").await)
    });
    assert_eq!(fresh, Some(5));
    assert_eq!(stale, None);
}

#[test]
fn resident_entries_stay_within_capacity() {
    let keyed = KeyedCache::<u64, u64>::build(CachePolicy::bounded(8)).unwrap();
    let count = runtime().block_on(async {
        for key in 0..200u64 {
            keyed.handle().insert(key, key).await;
        }
        keyed.handle().run_pending_tasks().await;
        keyed.handle().entry_count()
    });
    assert!(count <= 8);
}
