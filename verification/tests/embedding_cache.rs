use memory_mcp::embedding::EmbeddingCache;

fn bits(v: &[f32]) -> Vec<u32> {
    v.iter().map(|x| x.to_bits()).collect()
}

fn floats(v: Option<Vec<u32>>) -> Option<Vec<f32>> {
    v.map(|b| b.into_iter().map(f32::from_bits).collect())
}

#[test]
fn test_cache_basic() {
    let mut cache = EmbeddingCache::new(2);
    let model = "test-model";
    let vec1 = vec![1.0, 2.0, 3.0];

    assert!(cache.get("hello", model).is_none());
    assert_eq!(cache.stats().misses, 1);

    cache.put("hello", model, bits(&vec1));
    assert_eq!(floats(cache.get("hello", model)), Some(vec1));
    assert_eq!(cache.stats().hits, 1);
    assert_eq!(cache.stats().size, 1);
}

#[test]
fn test_cache_lru_eviction() {
    let mut cache = EmbeddingCache::new(1);
    let model = "test-model";

    cache.put("a", model, bits(&[1.0]));
    cache.put("b", model, bits(&[2.0]));

    assert!(cache.get("a", model).is_none());
    assert!(cache.get("b", model).is_some());
    assert_eq!(cache.stats().size, 1);
}

#[test]
fn test_cache_normalization() {
    let mut cache = EmbeddingCache::new(10);
    let model = "test-model";
    let vec = vec![1.0];

    cache.put("  Hello  ", model, bits(&vec));
    assert_eq!(floats(cache.get("hello", model)), Some(vec));
}

#[test]
fn reading_refreshes_an_entry() {
    let mut cache = EmbeddingCache::new(2);
    cache.put("a", "m", vec![1]);
    cache.put("b", "m", vec![2]);
    assert_eq!(cache.get("a", "m"), Some(vec![1]));
    cache.put("c", "m", vec![3]);
    // "b" was the least recently used entry.
    assert!(cache.get("b", "m").is_none());
    assert_eq!(cache.get("a", "m"), Some(vec![1]));
    assert_eq!(cache.get("c", "m"), Some(vec![3]));
}

#[test]
fn models_do_not_share_entries_and_zero_capacity_holds_one() {
    let mut cache = EmbeddingCache::new(0);
    cache.put("x", "m1", vec![7]);
    assert!(cache.get("x", "m2").is_none());
    assert_eq!(cache.get("x", "m1"), Some(vec![7]));
    cache.put("x", "m1", vec![8]);
    assert_eq!(cache.get("X ", "m1"), Some(vec![8]));
    assert_eq!(cache.stats().size, 1);
}
