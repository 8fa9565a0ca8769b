use scieldas::{PayloadCache, RasterCache, CACHE_CAPACITY, PAYLOAD_TTL_SECS};
use serde_json::Value;

/// Serves `url` from the cache, or fetches it (counting the fetch) and keeps it.
fn fetch_through(cache: &mut PayloadCache, url: &str, now: u64, calls: &mut u32) -> Option<Value> {
    let key = url.to_string();
    match cache.get(&key, now) {
        Some(p) => p,
        None => {
            *calls += 1;
            let p = Some(serde_json::from_str::<Value>(r#"{"n":1}"#).unwrap());
            cache.insert(key, p.clone(), now);
            p
        }
    }
}

#[test]
fn payload_cache_ttl() {
    let mut cache = PayloadCache::new();
    let mut calls = 0;
    fetch_through(&mut cache, "https://x/a", 1000, &mut calls);
    fetch_through(&mut cache, "https://x/a", 1000 + 299, &mut calls);
    assert_eq!(calls, 1);
    fetch_through(&mut cache, "https://x/a", 1000 + 300, &mut calls);
    assert_eq!(calls, 2);
    fetch_through(&mut cache, "https://x/a", 1000 + 301, &mut calls);
    assert_eq!(calls, 2);
    assert_eq!(PAYLOAD_TTL_SECS, 300);
    assert_eq!(CACHE_CAPACITY, 1000);
}

#[test]
fn payload_cache_keeps_absence() {
    let mut cache = PayloadCache::new();
    let url = "https://x/down".to_string();
    cache.insert(url.clone(), None, 10);
    assert_eq!(cache.get(&url, 20), Some(None));
    assert_eq!(cache.get(&"https://x/other".to_string(), 20), None);
}

#[test]
fn payload_cache_evicts_least_recent() {
    let mut cache = PayloadCache::with_size_and_lifespan(2, 300);
    let (a, b, c) = ("a".to_string(), "b".to_string(), "c".to_string());
    cache.insert(a.clone(), None, 0);
    cache.insert(b.clone(), None, 0);
    assert!(cache.get(&a, 1).is_some());
    cache.insert(c.clone(), None, 1);
    assert!(cache.get(&a, 2).is_some());
    assert!(cache.get(&b, 2).is_none());
    assert!(cache.get(&c, 2).is_some());
}

#[test]
fn raster_cache_store_and_lookup() {
    let mut cache = RasterCache::with_size(1);
    let (a, b) = ("<svg a/>".to_string(), "<svg b/>".to_string());
    assert_eq!(cache.lookup(&a), None);
    cache.store(a.clone(), vec![1, 2, 3]);
    assert_eq!(cache.lookup(&a), Some(vec![1, 2, 3]));
    cache.store(b.clone(), vec![4]);
    assert_eq!(cache.lookup(&a), None);
    assert_eq!(cache.lookup(&b), Some(vec![4]));
    assert_eq!(cache.renders(), 0);
}

#[test]
fn raster_cache_evicts_least_recent() {
    let mut cache = RasterCache::with_size(2);
    let (a, b, c) = ("a".to_string(), "b".to_string(), "c".to_string());
    cache.store(a.clone(), vec![1]);
    cache.store(b.clone(), vec![2]);
    assert_eq!(cache.lookup(&a), Some(vec![1]));
    cache.store(c.clone(), vec![3]);
    assert_eq!(cache.lookup(&b), None);
    assert_eq!(cache.lookup(&a), Some(vec![1]));
    assert_eq!(cache.lookup(&c), Some(vec![3]));
}
