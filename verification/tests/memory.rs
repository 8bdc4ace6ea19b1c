use doc_indexer::memory::cache::{CacheConfig, MemoryEfficientCache};
use doc_indexer::memory::intern::constants::{common_stats, get_common_interner, intern_common};
use doc_indexer::memory::intern::{usage_from, StringInterner};
use doc_indexer::memory::pool::{VectorPool, VectorPoolConfig};
use std::time::Duration;

#[test]
fn test_string_interning() {
    let mut interner = StringInterner::new();

    let s1 = interner.intern("hello");
    let s2 = interner.intern("hello");
    let s3 = interner.intern("world");

    // Same string should have same ID
    assert_eq!(s1.id(), s2.id());
    assert_ne!(s1.id(), s3.id());

    // Content should be preserved
    assert_eq!(s1.as_str(), "hello");
    assert_eq!(s3.as_str(), "world");

    // Should have 1 hit, 2 misses
    let stats = interner.stats();
    assert_eq!(stats.hits, 1);
    assert_eq!(stats.misses, 2);
}

#[test]
fn test_interned_string_equality() {
    let mut interner = StringInterner::new();

    let s1 = interner.intern("test");
    let s2 = interner.intern("test");
    let s3 = interner.intern("other");

    assert_eq!(s1, s2); // Same content, same ID
    assert_ne!(s1, s3); // Different content, different ID
}

#[test]
fn test_common_strings() {
    let mut common = get_common_interner();
    let s1 = intern_common(&mut common, ".rs");
    let s2 = intern_common(&mut common, ".rs");

    assert_eq!(s1, s2);
    assert_eq!(s1.as_str(), ".rs");
}

#[test]
fn test_memory_usage() {
    let mut interner = StringInterner::new();

    let initial_usage = interner.memory_usage();

    interner.intern("some test string");

    let after_usage = interner.memory_usage();
    assert!(after_usage > initial_usage);
}

#[test]
fn common_interner_preloads_distinct_strings() {
    let common = get_common_interner();
    assert_eq!(common.len(), 36);
    let stats = common_stats(&common);
    assert_eq!(stats.misses, 36);
    assert_eq!(stats.hits, 0);
    assert_eq!(common.get_by_id(0), Some(".md".to_string()));
    assert_eq!(common.get_by_id(35), Some(".git".to_string()));
    assert_eq!(common.get_by_id(36), None);
}

#[test]
fn interning_again_stores_nothing_new() {
    let mut interner = StringInterner::new();
    assert!(interner.is_empty());
    let a = interner.intern("alpha");
    let b = interner.intern("beta");
    let a2 = interner.intern("alpha");
    assert_eq!(interner.len(), 2);
    assert_eq!(a.id(), 0);
    assert_eq!(b.id(), 1);
    assert_eq!(a2.id(), 0);
    assert_eq!(interner.get_by_id(1), Some("beta".to_string()));
}

#[test]
fn test_basic_cache_operations() {
    let config = CacheConfig {
        max_entries: 2,
        max_memory_bytes: 1024,
        ttl: Duration::from_secs(60),
        memory_pressure_enabled: false,
    };
    let mut cache = MemoryEfficientCache::new(config);

    // Test insert and get
    cache.insert("key1".to_string(), "value1".to_string());
    assert_eq!(cache.get(&"key1".to_string()), Some("value1".to_string()));
    assert_eq!(cache.get(&"key2".to_string()), None);

    // Test statistics
    let stats = cache.stats();
    assert_eq!(stats.hits, 1);
    assert_eq!(stats.misses, 1);
    assert_eq!(stats.insertions, 1);
}

#[test]
fn test_cache_eviction() {
    let config = CacheConfig {
        max_entries: 2,
        max_memory_bytes: 1024 * 1024,
        ttl: Duration::from_secs(60),
        memory_pressure_enabled: false,
    };
    let mut cache = MemoryEfficientCache::new(config);

    // Fill cache to capacity
    cache.insert("key1".to_string(), "value1".to_string());
    cache.insert("key2".to_string(), "value2".to_string());

    // Access key1 to make it more likely to be kept
    cache.get(&"key1".to_string());

    // Insert another item - should trigger eviction
    cache.insert("key3".to_string(), "value3".to_string());

    // key1 should still be there (accessed recently)
    // key2 might be evicted
    assert_eq!(cache.get(&"key1".to_string()), Some("value1".to_string()));
    assert_eq!(cache.get(&"key3".to_string()), Some("value3".to_string()));
}

#[test]
fn test_vector_cache() {
    let config = CacheConfig::default();
    let mut cache: MemoryEfficientCache<Vec<f32>> = MemoryEfficientCache::new(config);

    let vector = vec![1.0, 2.0, 3.0];
    cache.insert("test".to_string(), vector.clone());

    assert_eq!(cache.get(&"test".to_string()), Some(vector));
}

#[test]
fn cache_expiry_and_eviction_at_fixed_times() {
    let config = CacheConfig {
        max_entries: 4,
        max_memory_bytes: 1_000_000,
        ttl: Duration::from_nanos(100),
        memory_pressure_enabled: false,
    };
    let mut cache: MemoryEfficientCache<u32> = MemoryEfficientCache::new(config);
    cache.insert_at("a".to_string(), 1, 10, 0);
    assert_eq!(cache.get_at(&"a".to_string(), 100), Some(1));
    // 101 ns after creation the entry has expired.
    assert_eq!(cache.get_at(&"a".to_string(), 101), None);
    assert_eq!(cache.stats().expirations, 1);
    // A read that drops an expired entry leaves the memory total as it was.
    assert_eq!(cache.stats().total_memory_bytes, 10);
    assert!(cache.is_empty());

    // Four entries fill the cache; the fifth evicts down to three quarters.
    cache.insert_at("k1".to_string(), 1, 1, 0);
    cache.insert_at("k2".to_string(), 2, 1, 0);
    cache.insert_at("k3".to_string(), 3, 1, 0);
    cache.insert_at("k4".to_string(), 4, 1, 0);
    // Reading k1, k3 and k4 lowers their scores; k2 scores highest.
    cache.get_at(&"k1".to_string(), 50);
    cache.get_at(&"k3".to_string(), 50);
    cache.get_at(&"k4".to_string(), 50);
    cache.insert_at("k5".to_string(), 5, 1, 60);
    assert_eq!(cache.len(), 4);
    assert_eq!(cache.stats().evictions, 1);
    assert_eq!(cache.get_at(&"k2".to_string(), 60), None);
    assert_eq!(cache.get_at(&"k5".to_string(), 60), Some(5));
    assert_eq!(cache.remove(&"k5".to_string()), Some(5));
    assert_eq!(cache.remove(&"k5".to_string()), None);
    cache.clear();
    assert_eq!(cache.len(), 0);
    assert_eq!(cache.stats().total_memory_bytes, 0);
}

#[test]
fn cache_cleanup_drops_only_expired() {
    let config = CacheConfig {
        max_entries: 10,
        max_memory_bytes: 1_000_000,
        ttl: Duration::from_nanos(10),
        memory_pressure_enabled: false,
    };
    let mut cache: MemoryEfficientCache<u32> = MemoryEfficientCache::new(config);
    cache.insert_at("old".to_string(), 1, 5, 0);
    cache.insert_at("new".to_string(), 2, 7, 20);
    cache.cleanup_expired_at(25);
    assert_eq!(cache.len(), 1);
    assert_eq!(cache.stats().expirations, 1);
    assert_eq!(cache.stats().total_memory_bytes, 7);
    assert_eq!(cache.get_at(&"new".to_string(), 25), Some(2));
}

#[test]
fn test_vector_pool_basic() {
    let config = VectorPoolConfig {
        max_pool_size: 5,
        dimension: 384,
        dimension_tolerance: 32,
    };
    let pool: VectorPool<f32> = VectorPool::new(config);
    assert_eq!(pool.stats().pool_size, 0);
}

#[test]
fn test_pool_size_limit() {
    let config = VectorPoolConfig {
        max_pool_size: 2,
        dimension: 384,
        dimension_tolerance: 32,
    };
    let mut pool: VectorPool<f32> = VectorPool::new(config);

    // Add vectors up to limit
    pool.return_vector(vec![0.0; 384]);
    pool.return_vector(vec![0.0; 384]);
    pool.return_vector(vec![0.0; 384]); // This should be ignored

    assert_eq!(pool.stats().pool_size, 2);
}

#[test]
fn pool_reuses_fitting_buffers() {
    let mut pool: VectorPool<f32> = VectorPool::new(VectorPoolConfig::default());
    let v = pool.get_vector(384, 0.0);
    assert_eq!(v.len(), 384);
    assert!(v.iter().all(|x| *x == 0.0));
    assert_eq!(pool.stats().misses, 1);
    pool.return_with_capacity(Vec::with_capacity(400), 400);
    assert_eq!(pool.stats().pool_size, 1);
    // A buffer too large for the pool is dropped.
    pool.return_with_capacity(Vec::new(), 1000);
    assert_eq!(pool.stats().pool_size, 1);
    assert!(pool.worth_keeping(384 + 64));
    assert!(!pool.worth_keeping(384 + 65));
    assert!(pool.fits_request(400, 384));
    assert!(!pool.fits_request(417, 384));
    pool.clear();
    assert_eq!(pool.stats().pool_size, 0);
    assert_eq!(pool.stats().hits, 0);
}

#[test]
fn common_interner_counts() {
    let mut common = get_common_interner();
    let a = common_stats(&common);
    assert_eq!(a.misses, 36);
    assert_eq!(a.hits, 0);
    let md = intern_common(&mut common, ".md");
    assert_eq!(md.id(), 0);
    let b = common_stats(&common);
    assert_eq!((b.hits, b.misses), (a.hits + 1, a.misses));
    intern_common(&mut common, "brand-new");
    assert_eq!(common_stats(&common).misses, 37);
}

#[test]
fn pool_hands_out_the_first_fitting_buffer() {
    let mut pool: VectorPool<f32> = VectorPool::new(VectorPoolConfig::default());
    pool.return_vector(Vec::with_capacity(440));
    pool.return_vector(Vec::with_capacity(390));
    assert_eq!(pool.stats().pool_size, 2);
    // 440 is more than 32 above 384; the second buffer fits.
    let v = pool.get_vector(384, 1.5);
    assert_eq!(v.len(), 384);
    assert!(v.capacity() >= 384);
    assert!(v.iter().all(|x| *x == 1.5));
    let s = pool.stats();
    assert_eq!((s.hits, s.misses, s.pool_size), (1, 0, 1));
    // Nothing left fits 300: a new buffer is made and the pool stays.
    let w = pool.get_vector(300, 0.0);
    assert_eq!(w.len(), 300);
    let s = pool.stats();
    assert_eq!((s.hits, s.misses, s.pool_size), (1, 1, 1));
}

#[test]
fn usage_estimate_from_capacities() {
    let string_size = std::mem::size_of::<String>();
    assert_eq!(usage_from(&vec![10, 20], 3), 30 + 3 * string_size);
    assert_eq!(usage_from(&vec![], 0), 0);
    assert_eq!(usage_from(&vec![usize::MAX, 1], 0), usize::MAX);
    assert_eq!(usage_from(&vec![1], usize::MAX), usize::MAX);
}
