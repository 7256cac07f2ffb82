use redstone::cache::lru_cache::{Cache, CacheError};
use redstone::tensor::meta::{DType, StorageLayout, TensorMeta};
use redstone::tensor::tensor::Tensor;

fn make_tensor() -> Tensor {
    let meta = TensorMeta::new(DType::F32, vec![4, 4], StorageLayout::RowMajor).unwrap();

    let data = vec![0u8; 64];
    Tensor::new(meta, data).unwrap()
}

#[test]
fn lru_cache_test_cache_creation() {
    let cache = Cache::new(64);
    assert!(cache.is_ok());
}

#[test]
fn lru_cache_test_cache_put_and_get() {
    let mut cache = Cache::new(64).unwrap();
    let key = "test_key".to_string();

    let tensor = make_tensor();
    cache.put(key.clone(), tensor).unwrap();

    let fetched = cache.get(&key);
    assert!(fetched.is_some());
}

#[test]
fn lru_cache_test_cache_duplicate_put_fails() {
    let mut cache = Cache::new(256).unwrap();
    let key = "dup_key".to_string();

    let tensor1 = make_tensor();
    let tensor2 = make_tensor();

    cache.put(key.clone(), tensor1).unwrap();
    let result = cache.put(key.clone(), tensor2);

    assert_eq!(result, Err(CacheError::KeyAlreadyExists));
}

#[test]
fn lru_cache_test_cache_get_missing_returns_none() {
    let mut cache = Cache::new(64).unwrap();
    assert!(cache.get("missing").is_none());
}

#[test]
fn lru_cache_test_invalid_size() {
    assert!(matches!(Cache::new(0), Err(CacheError::InvalidSize)));
}

#[test]
fn test_out_of_memory_with_eviction() {
    let mut cache = Cache::new(100).unwrap(); // 100 bytes total
    let tensor1 = make_tensor(); // 64 bytes

    cache.put("key1".to_string(), tensor1).unwrap();

    let tensor2 = make_tensor();

    let result = cache.put("key2".to_string(), tensor2);
    assert!(result.is_ok());

    assert!(cache.get("key1").is_none());
    assert!(cache.get("key2").is_some());

    let stats = cache.stats();
    assert_eq!(stats.evictions, 1);
}

#[test]
fn test_lru_eviction_order() {
    let mut cache = Cache::new(150).unwrap();

    let tensor1 = make_tensor();
    let tensor2 = make_tensor();
    let tensor3 = make_tensor();

    cache.put("key1".to_string(), tensor1).unwrap();
    cache.put("key2".to_string(), tensor2).unwrap();

    cache.get("key1");

    cache.put("key3".to_string(), tensor3).unwrap();

    assert!(cache.get("key1").is_some());
    assert!(cache.get("key2").is_none());
    assert!(cache.get("key3").is_some());
}

#[test]
fn test_single_large_tensor_oom() {
    let mut cache = Cache::new(50).unwrap(); // Only 50 bytes

    let tensor = make_tensor(); // 64 bytes - too big

    let result = cache.put("huge".to_string(), tensor);
    assert_eq!(result, Err(CacheError::OutOfMemory));
}

#[test]
fn lru_single_object_oom_leaves_cache_empty() {
    let mut cache = Cache::new(50).unwrap();

    let result = cache.put("huge".to_string(), make_tensor());
    assert_eq!(result, Err(CacheError::OutOfMemory));

    let stats = cache.stats();
    assert_eq!(stats.entries, 0);
    assert_eq!(stats.memory_used, 0);
    assert_eq!(stats.evictions, 0);
}

#[test]
fn lru_stats_count_hits_and_misses() {
    let mut cache = Cache::new(200).unwrap();

    let tensor = make_tensor();
    cache.put("key1".to_string(), tensor).unwrap();

    cache.get("key1");
    cache.get("missing");

    let stats = cache.stats();
    assert_eq!(stats.hits, 1);
    assert_eq!(stats.misses, 1);
    assert_eq!(stats.entries, 1);
    assert_eq!(stats.memory_used, 64);
    assert_eq!(stats.memory_limit, 200);
}

#[test]
fn lru_delete_then_delete_returns_nothing() {
    let mut cache = Cache::new(200).unwrap();

    cache.put("key1".to_string(), make_tensor()).unwrap();

    assert!(cache.delete("key1").is_some());
    assert!(cache.delete("key1").is_none());

    let stats = cache.stats();
    assert_eq!(stats.entries, 0);
    assert_eq!(stats.memory_used, 0);
    assert_eq!(stats.evictions, 0);
}

#[test]
fn lru_put_get_round_trip_returns_same_bytes() {
    let mut cache = Cache::new(64).unwrap();

    let meta = TensorMeta::new(DType::U8, vec![4], StorageLayout::RowMajor).unwrap();
    let tensor = Tensor::new(meta, vec![1, 2, 3, 4]).unwrap();

    cache.put("k".to_string(), tensor).unwrap();

    let fetched = cache.get("k").unwrap();
    assert_eq!(fetched.get_data(), &[1, 2, 3, 4]);
    assert_eq!(*fetched.get_metadata().dtype(), DType::U8);
}
