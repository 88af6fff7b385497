use lru_cache::CacheError;
use lru_cache::LruCache;

#[test]
fn basic_put_get() {
    let cache = LruCache::new(2).unwrap();

    cache.put(1, "a");
    cache.put(2, "b");

    assert_eq!(cache.get(&1), Some("a"));
    assert_eq!(cache.get(&2), Some("b"));
}

#[test]
fn eviction_works() {
    let cache = LruCache::new(2).unwrap();

    cache.put(1, "a");
    cache.put(2, "b");

    cache.get(&1);
    cache.put(3, "c");

    assert_eq!(cache.get(&2), None);
    assert_eq!(cache.get(&1), Some("a"));
    assert_eq!(cache.get(&3), Some("c"));
}

#[test]
fn zero_capacity_is_refused() {
    let built = LruCache::<i32, &str>::new(0);
    assert_eq!(built.err(), Some(CacheError::InvalidCapacity));
}

#[test]
fn positive_capacity_is_accepted() {
    assert!(LruCache::<u8, u8>::new(1).is_ok());
    assert!(LruCache::<u8, u8>::new(1000).is_ok());
}

#[test]
fn new_cache_is_empty() {
    let cache = LruCache::<u64, u64>::new(4).unwrap();
    assert_eq!(cache.len(), 0);
    assert_eq!(cache.get(&7), None);
    assert_eq!(cache.len(), 0);
}

#[test]
fn len_never_exceeds_capacity() {
    let cache = LruCache::new(3).unwrap();
    for i in 0..100u32 {
        cache.put(i % 7, i);
        assert!(cache.len() <= 3);
    }
    assert_eq!(cache.len(), 3);
}

#[test]
fn len_counts_distinct_keys() {
    let cache = LruCache::new(5).unwrap();
    cache.put("x", 1);
    assert_eq!(cache.len(), 1);
    cache.put("x", 2);
    assert_eq!(cache.len(), 1);
    cache.put("y", 3);
    assert_eq!(cache.len(), 2);
}

#[test]
fn update_does_not_evict() {
    let cache = LruCache::new(2).unwrap();
    cache.put(1, "one");
    cache.put(2, "two");

    cache.put(1, "uno");

    assert_eq!(cache.len(), 2);
    assert_eq!(cache.get(&2), Some("two"));
    assert_eq!(cache.get(&1), Some("uno"));
}

#[test]
fn update_counts_as_use() {
    let cache = LruCache::new(2).unwrap();
    cache.put(1, 10);
    cache.put(2, 20);
    cache.put(1, 11);
    cache.put(3, 30);

    assert_eq!(cache.get(&2), None);
    assert_eq!(cache.get(&1), Some(11));
    assert_eq!(cache.get(&3), Some(30));
}

#[test]
fn miss_does_not_alter_order() {
    let cache = LruCache::new(2).unwrap();
    cache.put(1, "a");
    cache.put(2, "b");

    assert_eq!(cache.get(&9), None);
    assert_eq!(cache.len(), 2);

    cache.put(3, "c");
    assert_eq!(cache.get(&1), None);
    assert_eq!(cache.get(&2), Some("b"));
    assert_eq!(cache.get(&3), Some("c"));
}

#[test]
fn eviction_follows_insertion_order_without_reads() {
    let cache = LruCache::new(3).unwrap();
    cache.put(1, 1);
    cache.put(2, 2);
    cache.put(3, 3);
    cache.put(4, 4);
    cache.put(5, 5);

    assert_eq!(cache.get(&1), None);
    assert_eq!(cache.get(&2), None);
    assert_eq!(cache.get(&3), Some(3));
    assert_eq!(cache.get(&4), Some(4));
    assert_eq!(cache.get(&5), Some(5));
    assert_eq!(cache.len(), 3);
}

#[test]
fn one_put_evicts_one_entry() {
    let cache = LruCache::new(3).unwrap();
    cache.put('a', 1);
    cache.put('b', 2);
    cache.put('c', 3);
    cache.put('d', 4);

    assert_eq!(cache.len(), 3);
    assert_eq!(cache.get(&'a'), None);
    assert_eq!(cache.get(&'b'), Some(2));
    assert_eq!(cache.get(&'c'), Some(3));
    assert_eq!(cache.get(&'d'), Some(4));
}

#[test]
fn capacity_one_keeps_only_the_latest_key() {
    let cache = LruCache::new(1).unwrap();
    cache.put(1, "a");
    assert_eq!(cache.get(&1), Some("a"));
    cache.put(1, "b");
    assert_eq!(cache.get(&1), Some("b"));
    assert_eq!(cache.len(), 1);
    cache.put(2, "c");
    assert_eq!(cache.get(&1), None);
    assert_eq!(cache.get(&2), Some("c"));
    assert_eq!(cache.len(), 1);
}

#[test]
fn values_are_handed_out_as_independent_copies() {
    let cache = LruCache::new(2).unwrap();
    cache.put(1u8, String::from("first"));

    let mut copy = cache.get(&1).unwrap();
    copy.push_str(" changed");

    assert_eq!(cache.get(&1), Some(String::from("first")));
    assert_eq!(copy, "first changed");
}

#[test]
fn usable_through_a_shared_reference() {
    let cache = LruCache::new(2).unwrap();
    let first = &cache;
    let second = &cache;
    first.put(1, 1);
    second.put(2, 2);
    assert_eq!(first.get(&2), Some(2));
    assert_eq!(second.get(&1), Some(1));
    assert_eq!(cache.len(), 2);
}

fn usable_from_any_thread<T: Send + Sync>(_: &T) {}

#[test]
fn cache_is_send_and_sync() {
    let cache = LruCache::<u32, String>::new(8).unwrap();
    usable_from_any_thread(&cache);
}

#[test]
fn shared_owners_see_one_cache() {
    let cache = std::sync::Arc::new(LruCache::new(50).unwrap());
    let writer = std::sync::Arc::clone(&cache);
    let reader = std::sync::Arc::clone(&cache);

    for round in 0..10 {
        for key in 0..1000 {
            writer.put(key, round);
            assert_eq!(reader.get(&key), Some(round));
        }
        assert!(cache.len() <= 50);
    }
    assert_eq!(cache.len(), 50);
    assert_eq!(reader.get(&949), None);
    assert_eq!(reader.get(&950), Some(9));
}
