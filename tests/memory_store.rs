use std::collections::HashMap;

use ezcache::stores::MemoryStore;
use ezcache::thread_safe::dumb_wrappers::EmptyDumbError;
use ezcache::{CacheStore, TryCacheStore, TryCacheStoreErrorMap};

#[test]
fn memory_get_missing_then_set() {
    let mut store: MemoryStore<&'static str, String> = MemoryStore::default();
    assert_eq!(store.get(&"key"), None);
    store.set(&"key", &"value".to_owned());
    assert_eq!(store.get(&"key"), Some(String::from("value")));
}

#[test]
fn memory_round_trip_empty_payload() {
    let mut store: MemoryStore<u32, Vec<u8>> = MemoryStore::new();
    store.set(&7, &Vec::new());
    assert_eq!(store.get(&7), Some(Vec::new()));
}

#[test]
fn memory_contains_before_and_after_set() {
    let mut store: MemoryStore<u32, u32> = MemoryStore::new();
    assert!(!store.contains(&1));
    store.set(&1, &10);
    assert!(store.contains(&1));
    assert!(!store.contains(&2));
}

#[test]
fn memory_set_overwrites_last_writer_wins() {
    let mut store: MemoryStore<u32, u32> = MemoryStore::new();
    store.set(&1, &10);
    store.set(&1, &20);
    assert_eq!(store.get(&1), Some(20));
}

#[test]
fn memory_from_hashmap_keeps_entries() {
    let mut map = HashMap::new();
    map.insert(1u32, 100u32);
    let store = MemoryStore::from_hashmap(map);
    assert_eq!(store.get(&1), Some(100));
    assert_eq!(store.get(&2), None);
}

#[test]
fn memory_as_fallible_store_never_fails() {
    let mut store: MemoryStore<u32, u32> = MemoryStore::new();
    assert_eq!(store.try_get(&1), Ok(None));
    assert_eq!(store.try_set(&1, &5), Ok(()));
    assert_eq!(store.try_get(&1), Ok(Some(5)));
    assert_eq!(store.try_exists(&1), Ok(true));
}

#[derive(Debug, PartialEq)]
enum Wide {
    Never,
}

impl From<std::convert::Infallible> for Wide {
    fn from(_: std::convert::Infallible) -> Self {
        Wide::Never
    }
}

#[test]
fn error_map_passes_values_through() {
    let store: MemoryStore<u32, u32> = MemoryStore::new();
    let mut mapped: TryCacheStoreErrorMap<u32, u32, std::convert::Infallible, Wide, _> =
        TryCacheStoreErrorMap::from_store(store);
    assert_eq!(mapped.try_set(&3, &4), Ok(()));
    assert_eq!(mapped.try_get(&3), Ok(Some(4)));
    assert_eq!(mapped.try_exists(&9), Ok(false));
}

#[test]
fn lock_errors_are_distinct() {
    assert_ne!(EmptyDumbError::Poisoned, EmptyDumbError::WouldBlock);
}
