use std::sync::atomic::{AtomicUsize, Ordering};

use ezcache::generative::{GenCacheStore, GenCacheStoreWrapper, TryGenCacheStore, TryGenCacheStoreWrapper};
use ezcache::stores::MemoryStore;
use ezcache::{CacheStore, TryCacheStore};

#[test]
fn gen_store_doubles_on_miss() {
    let very_heavy_computation = |&n: &usize, ()| n * 2;
    let store = MemoryStore::<usize, usize>::default();
    let mut gen_store = GenCacheStoreWrapper::new(store, very_heavy_computation);

    assert_eq!(gen_store.get(&2), None);
    assert_eq!(gen_store.get_or_new(&2, ()), 4);
    assert_eq!(gen_store.get(&2), Some(4));
}

#[test]
fn gen_store_extra_args_are_not_keys() {
    let very_heavy_computation = |&n: &usize, offset: usize| n * 2 + offset;
    let store = MemoryStore::<usize, usize>::default();
    let mut gen_store = GenCacheStoreWrapper::new(store, very_heavy_computation);

    assert_eq!(gen_store.get(&2), None);
    assert_eq!(gen_store.get_or_new(&2, 0), 4);
    assert_eq!(gen_store.get(&2), Some(4));
    assert_eq!(gen_store.get_or_new(&2, 1), 4);
    assert_eq!(gen_store.gen_new(&2, 1), 5);
    assert_eq!(gen_store.get(&2), Some(5));
}

#[test]
fn gen_and_get_or_gen_do_not_store() {
    let mut gen_store = GenCacheStoreWrapper::new(MemoryStore::<u32, u32>::new(), |&n: &u32, ()| n + 1);
    assert_eq!(gen_store.gen(&1, ()), 2);
    assert_eq!(gen_store.get_or_gen(&1, ()), 2);
    assert!(!gen_store.contains(&1));
    gen_store.set(&1, &50);
    assert_eq!(gen_store.get_or_gen(&1, ()), 50);
    assert_eq!(gen_store.gen(&1, ()), 2);
}

#[test]
fn get_or_new_generates_once() {
    let calls = AtomicUsize::new(0);
    let mut gen_store = GenCacheStoreWrapper::new(MemoryStore::<u32, u32>::new(), |&n: &u32, ()| {
        calls.fetch_add(1, Ordering::SeqCst);
        n * 10
    });
    assert_eq!(gen_store.get_or_new(&3, ()), 30);
    assert_eq!(gen_store.get_or_new(&3, ()), 30);
    assert_eq!(gen_store.get_or_new(&3, ()), 30);
    assert_eq!(calls.load(Ordering::SeqCst), 1);
}

#[test]
fn infallible_gen_store_as_fallible() {
    let mut gen_store = GenCacheStoreWrapper::new(MemoryStore::<u32, u32>::new(), |&n: &u32, ()| n + 7);
    assert_eq!(gen_store.try_get_or_new(&1, ()), Ok(8));
    assert_eq!(gen_store.try_get(&1), Ok(Some(8)));
    assert_eq!(gen_store.try_gen_new(&1, ()), Ok(8));
}

#[derive(Debug, PartialEq)]
enum GenError {
    Compute,
}

impl From<std::convert::Infallible> for GenError {
    fn from(_: std::convert::Infallible) -> Self {
        GenError::Compute
    }
}

#[test]
fn try_gen_store_compute_failure_is_not_stored() {
    let store: ezcache::TryCacheStoreErrorMap<u32, u32, std::convert::Infallible, GenError, _> =
        ezcache::TryCacheStoreErrorMap::from_store(MemoryStore::<u32, u32>::new());
    let mut gen_store = TryGenCacheStoreWrapper::new(store, |&n: &u32, ()| {
        if n == 0 {
            Err(GenError::Compute)
        } else {
            Ok(100 / n)
        }
    });
    assert_eq!(gen_store.try_get_or_new(&0, ()), Err(GenError::Compute));
    assert_eq!(gen_store.try_exists(&0), Ok(false));
    assert_eq!(gen_store.try_get_or_new(&4, ()), Ok(25));
    assert_eq!(gen_store.try_get(&4), Ok(Some(25)));
    assert_eq!(gen_store.try_get_or_gen(&5, ()), Ok(20));
    assert_eq!(gen_store.try_exists(&5), Ok(false));
    assert_eq!(gen_store.try_gen(&0, ()), Err(GenError::Compute));
    assert_eq!(gen_store.try_gen_new(&2, ()), Ok(50));
    assert_eq!(gen_store.try_get(&2), Ok(Some(50)));
}
