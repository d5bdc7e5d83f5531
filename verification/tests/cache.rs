use shoporusni::cache::{Cache, Data, FileRead};

// A new cache has no classification yet.
#[test]
fn new_cache_is_unclassified() {
    let cache = Cache::new(1_000_000);
    assert_eq!(cache.ttl_micros, 1_000_000);
    assert_eq!(cache.data, Data::Unclassified);
}

// A missing file classifies as absent.
#[test]
fn get_cache_none() {
    let mut cache = Cache::new(1_000_000);
    cache.classify(None);
    assert_eq!(cache.data, Data::Absent);
}

// With a zero time-to-live, any positive age is stale.
#[test]
fn get_cache_outdated() {
    let mut cache = Cache::new(0);
    cache.classify(Some(FileRead { content: "data".to_string(), age_micros: 1 }));
    assert_eq!(cache.data, Data::Stale("data".to_string()));
}

// A file younger than the time-to-live is fresh, content verbatim.
#[test]
fn get_cache_ready() {
    let mut cache = Cache::new(1_000_000);
    cache.classify(Some(FileRead { content: "data".to_string(), age_micros: 0 }));
    assert_eq!(cache.data, Data::Fresh("data".to_string()));
}

// An age exactly equal to the time-to-live still counts as fresh.
#[test]
fn classify_tie_is_fresh() {
    let mut cache = Cache::new(500);
    cache.classify(Some(FileRead { content: "x".to_string(), age_micros: 500 }));
    assert_eq!(cache.data, Data::Fresh("x".to_string()));
}

// One microsecond past the time-to-live is stale.
#[test]
fn classify_just_past_ttl_is_stale() {
    let mut cache = Cache::new(500);
    cache.classify(Some(FileRead { content: "x".to_string(), age_micros: 501 }));
    assert_eq!(cache.data, Data::Stale("x".to_string()));
}

// Classification does not change the configured time-to-live.
#[test]
fn classify_keeps_ttl() {
    let mut cache = Cache::new(42);
    cache.classify(Some(FileRead { content: "y".to_string(), age_micros: 7 }));
    assert_eq!(cache.ttl_micros, 42);
    cache.classify(None);
    assert_eq!(cache.ttl_micros, 42);
}

// Empty content is carried through classification unchanged.
#[test]
fn classify_empty_content() {
    let mut cache = Cache::new(10);
    cache.classify(Some(FileRead { content: String::new(), age_micros: 0 }));
    assert_eq!(cache.data, Data::Fresh(String::new()));
}
