use std::collections::HashMap;
use std::sync::atomic::{AtomicUsize, Ordering};

use ezcache::stores::{MemoryStore, ThreadSafeMemoryStore};
use ezcache::thread_safe::dumb::generative::ThreadSafeTryCacheStore as LockedGenStore;
use ezcache::thread_safe::dumb::ThreadSafeTryCacheStore as LockedStore;
use ezcache::thread_safe::dumb_wrappers::{DumbTryThreadSafeWrapper, EmptyDumbError};
use ezcache::thread_safe::generative::{
    ThreadSafeGenCacheStoreWrapper, ThreadSafeGenTryCacheStoreWrapper, ThreadSafeTryGenCacheStore,
};
use ezcache::thread_safe::key_locks::{Blocking, KeyLocks, LockMode};
use ezcache::thread_safe::ThreadSafeTryCacheStore;
use ezcache::TryCacheStoreErrorMap;

#[test]
fn ts_memory_round_trip() {
    let store = ThreadSafeMemoryStore::<u32, Vec<u8>>::default();
    assert_eq!(store.ts_one_try_get(&1), Ok(None));
    assert_eq!(store.ts_one_try_exists(&1), Ok(false));
    assert_eq!(store.ts_one_try_set(&1, &vec![1, 2, 3]), Ok(()));
    assert_eq!(store.ts_one_try_get(&1), Ok(Some(vec![1, 2, 3])));
    assert_eq!(store.ts_one_try_exists(&1), Ok(true));
    assert_eq!(store.ts_one_try_set(&2, &Vec::new()), Ok(()));
    assert_eq!(store.ts_one_try_get(&2), Ok(Some(Vec::new())));
}

#[test]
fn ts_memory_starts_with_given_entries() {
    let mut map = HashMap::new();
    map.insert(5u32, 50u32);
    let store = ThreadSafeMemoryStore::new(map);
    assert_eq!(store.ts_one_try_get(&5), Ok(Some(50)));
    assert_eq!(store.ts_one_try_get(&6), Ok(None));
    assert_eq!(store.ts_one_try_set(&5, &51), Ok(()));
    assert_eq!(store.ts_one_try_get(&5), Ok(Some(51)));
}

#[test]
fn ts_handle_reads_what_it_wrote() {
    let store = ThreadSafeMemoryStore::<u32, u32>::default();
    let mut x = store.ts_try_xlock(&9).expect("to xlock");
    assert_eq!(*x.get_key(), 9);
    assert!(x.exclusive());
    assert_eq!(store.ts_try_get(&x), Ok(None));
    assert_eq!(store.ts_try_set(&mut x, &90), Ok(()));
    assert_eq!(store.ts_try_get(&x), Ok(Some(90)));
    assert_eq!(store.ts_try_exists(&x), Ok(true));
    assert_eq!(store.ts_try_slock_nblock(&9).err(), Some(EmptyDumbError::WouldBlock));
    drop(x);
    let s = store.ts_try_slock(&9).expect("to slock");
    assert!(!s.exclusive());
    assert_eq!(store.ts_try_get(&s), Ok(Some(90)));
}

#[test]
fn key_locks_exclusive_then_shared_other_key() {
    let locks: KeyLocks<u8, ()> = KeyLocks::new();
    let a = locks.acquire(&1, LockMode::Exclusive, Blocking::TryOnce, ()).expect("first key");
    let b = locks.acquire(&2, LockMode::Exclusive, Blocking::TryOnce, ()).expect("second key");
    assert_eq!(
        locks.acquire(&1, LockMode::Shared, Blocking::TryOnce, ()).err(),
        Some(EmptyDumbError::WouldBlock)
    );
    drop((a, b));
    assert!(locks.acquire(&1, LockMode::Exclusive, Blocking::Block, ()).is_ok());
}

#[derive(Debug, PartialEq)]
enum Failure {
    Lock(EmptyDumbError),
    Compute,
}

impl From<EmptyDumbError> for Failure {
    fn from(e: EmptyDumbError) -> Self {
        Failure::Lock(e)
    }
}

#[test]
fn ts_get_or_new_generates_once_and_stores() {
    let calls = AtomicUsize::new(0);
    let store = ThreadSafeMemoryStore::<u32, u32>::default();
    let gen_store: ThreadSafeGenTryCacheStoreWrapper<_, _, Failure, _, _, Failure, _, _> =
        ThreadSafeGenTryCacheStoreWrapper::new(store, |&n: &u32, ()| {
            calls.fetch_add(1, Ordering::SeqCst);
            Ok(n + 1000)
        });
    assert_eq!(gen_store.ts_try_get_or_new(&1, ()), Ok(1001));
    assert_eq!(gen_store.ts_try_get_or_new(&1, ()), Ok(1001));
    assert_eq!(calls.load(Ordering::SeqCst), 1);
    assert_eq!(gen_store.ts_one_try_get(&1), Ok(Some(1001)));
    assert_eq!(gen_store.ts_try_get_or_gen(&2, ()), Ok(1002));
    assert_eq!(gen_store.ts_one_try_exists(&2), Ok(false));
    assert_eq!(gen_store.ts_try_gen_new(&1, ()), Ok(1001));
    assert_eq!(calls.load(Ordering::SeqCst), 3);
}

#[test]
fn ts_get_or_new_compute_failure() {
    let store = ThreadSafeMemoryStore::<u32, u32>::default();
    let gen_store: ThreadSafeGenTryCacheStoreWrapper<_, _, Failure, _, _, Failure, _, _> =
        ThreadSafeGenTryCacheStoreWrapper::new(store, |_: &u32, ()| Err(Failure::Compute));
    assert_eq!(gen_store.ts_try_get_or_new(&1, ()), Err(Failure::Compute));
    assert_eq!(gen_store.ts_one_try_exists(&1), Ok(false));
    assert_eq!(gen_store.ts_try_gen(&1, ()), Err(Failure::Compute));
}

#[test]
fn ts_get_or_new_held_lock_would_block_nblock() {
    let store = ThreadSafeMemoryStore::<u32, u32>::default();
    let x = store.ts_try_xlock_nblock(&4).expect("to xlock");
    assert_eq!(store.ts_try_xlock_nblock(&4).err(), Some(EmptyDumbError::WouldBlock));
    assert!(store.ts_try_xlock_nblock(&5).is_ok());
    drop(x);
}

#[derive(Debug, PartialEq)]
enum Coarse {
    Lock(EmptyDumbError),
}

impl From<EmptyDumbError> for Coarse {
    fn from(e: EmptyDumbError) -> Self {
        Coarse::Lock(e)
    }
}

impl From<std::convert::Infallible> for Coarse {
    fn from(e: std::convert::Infallible) -> Self {
        match e {}
    }
}

#[test]
fn whole_store_lock_round_trip() {
    let inner: TryCacheStoreErrorMap<u32, u32, std::convert::Infallible, Coarse, _> =
        TryCacheStoreErrorMap::from_store(MemoryStore::<u32, u32>::new());
    let store = LockedStore::from_try_store(inner);
    assert_eq!(store.try_get(&1), Ok(None));
    assert_eq!(store.try_set(&1, &11), Ok(()));
    assert_eq!(store.try_get(&1), Ok(Some(11)));
    assert_eq!(store.try_exists(&1), Ok(true));
    assert!(store.lock().is_ok());
}

#[test]
fn whole_store_generator_stores_on_miss() {
    let inner: TryCacheStoreErrorMap<u32, u32, std::convert::Infallible, Coarse, _> =
        TryCacheStoreErrorMap::from_store(MemoryStore::<u32, u32>::new());
    let mut store = LockedGenStore::from_try_gen_store(inner, |&n: &u32, ()| Ok::<u32, Coarse>(n * 3));
    assert_eq!(store.try_gen(&2, ()), Ok(6));
    assert_eq!(store.try_get_or_gen(&2, ()), Ok(6));
    assert_eq!(store.try_exists(&2), Ok(false));
    assert_eq!(store.try_get_or_new(&2, ()), Ok(6));
    assert_eq!(store.try_get(&2), Ok(Some(6)));
    assert_eq!(store.try_set(&2, &7), Ok(()));
    assert_eq!(store.try_get_or_new(&2, ()), Ok(7));
    assert_eq!(store.try_gen_new(&2, ()), Ok(6));
    assert_eq!(store.try_get(&2), Ok(Some(6)));
}

#[test]
fn ts_infallible_generator_wrapper() {
    let calls = AtomicUsize::new(0);
    let gen_store = ThreadSafeGenCacheStoreWrapper::new(
        ThreadSafeMemoryStore::<u32, u32>::default(),
        |&n: &u32, offset: u32| {
            calls.fetch_add(1, Ordering::SeqCst);
            n * 2 + offset
        },
    );
    assert_eq!(gen_store.ts_try_gen(&2, 0), Ok(4));
    assert_eq!(gen_store.ts_try_get_or_gen(&2, 0), Ok(4));
    assert_eq!(gen_store.ts_one_try_exists(&2), Ok(false));
    assert_eq!(gen_store.ts_try_get_or_new(&2, 0), Ok(4));
    assert_eq!(gen_store.ts_try_get_or_new(&2, 1), Ok(4));
    assert_eq!(gen_store.ts_try_gen_new(&2, 1), Ok(5));
    assert_eq!(gen_store.ts_one_try_get(&2), Ok(Some(5)));
    assert_eq!(calls.load(Ordering::SeqCst), 4);
}

#[test]
fn ts_generator_reports_would_block_free_lock_errors_only() {
    let gen_store = ThreadSafeGenCacheStoreWrapper::new(
        ThreadSafeMemoryStore::<u32, u32>::default(),
        |&n: &u32, ()| n,
    );
    let held = gen_store.ts_try_slock_nblock(&1).expect("to slock");
    assert_eq!(gen_store.ts_try_xlock_nblock(&1).err(), Some(EmptyDumbError::WouldBlock));
    drop(held);
    assert_eq!(gen_store.ts_try_get_or_new(&1, ()), Ok(1));
}

#[test]
fn error_map_from_conversion() {
    let inner = MemoryStore::<u32, u32>::new();
    let mapped: TryCacheStoreErrorMap<u32, u32, std::convert::Infallible, Coarse, _> = inner.into();
    let store = LockedStore::from_try_store(mapped);
    assert_eq!(store.try_exists(&3), Ok(false));
}

#[test]
fn handle_data_is_the_keys_entry() {
    let locks: KeyLocks<u8, Option<u32>> = KeyLocks::new();
    let mut x = locks.acquire(&3, LockMode::Exclusive, Blocking::Block, Some(30)).expect("to lock");
    assert_eq!(*x.data(), Some(30));
    x.replace_data(Some(31));
    assert_eq!(*x.data(), Some(31));
    drop(x);
    let s = locks.acquire(&3, LockMode::Shared, Blocking::TryOnce, None).expect("to lock");
    assert_eq!(*s.data(), Some(31));
    assert_eq!(*s.get_key(), 3);
}

#[test]
fn ts_lock_only_key_has_no_entry() {
    let store = ThreadSafeMemoryStore::<u32, u32>::default();
    drop(store.ts_try_xlock(&8).expect("to xlock"));
    drop(store.ts_try_slock_nblock(&8).expect("to slock"));
    let handle = store.ts_try_slock(&8).expect("to slock");
    assert_eq!(store.ts_try_exists(&handle), Ok(false));
    assert_eq!(store.ts_try_get(&handle), Ok(None));
}

#[test]
fn ts_last_writer_wins() {
    let store = ThreadSafeMemoryStore::<u32, u32>::default();
    assert_eq!(store.ts_one_try_set(&1, &10), Ok(()));
    assert_eq!(store.ts_one_try_set(&1, &20), Ok(()));
    assert_eq!(store.ts_one_try_get(&1), Ok(Some(20)));
    assert_eq!(store.ts_one_try_exists(&1), Ok(true));
}

#[test]
fn ts_get_or_new_held_under_callers_lock() {
    let store = ThreadSafeMemoryStore::<u32, u32>::default();
    let gen_store = ThreadSafeGenCacheStoreWrapper::new(store, |&n: &u32, ()| n + 1);
    let mut x = gen_store.ts_try_xlock(&4).expect("to xlock");
    assert_eq!(gen_store.ts_try_get_or_new_held(&mut x, &4, ()), Ok(5));
    assert_eq!(gen_store.ts_try_get(&x), Ok(Some(5)));
    drop(x);
    assert_eq!(gen_store.ts_one_try_get(&4), Ok(Some(5)));
}

#[test]
fn read_write_locked_store_round_trip() {
    let inner: TryCacheStoreErrorMap<u32, u32, std::convert::Infallible, Coarse, _> =
        TryCacheStoreErrorMap::from_store(MemoryStore::<u32, u32>::new());
    let store = DumbTryThreadSafeWrapper::new(inner);
    assert_eq!(store.ts_one_try_get(&1), Ok(None));
    assert_eq!(store.ts_one_try_set(&1, &10), Ok(()));
    assert_eq!(store.ts_one_try_get(&1), Ok(Some(10)));
    assert_eq!(store.ts_one_try_exists(&1), Ok(true));
    let s1 = store.ts_try_slock_nblock(&1).expect("to slock");
    let s2 = store.ts_try_slock_nblock(&2).expect("to also slock");
    assert_eq!(
        store.ts_try_xlock_nblock(&3).err(),
        Some(Coarse::Lock(EmptyDumbError::WouldBlock))
    );
    drop((s1, s2));
    let mut x = store.ts_try_xlock_nblock(&3).expect("to xlock");
    assert_eq!(store.ts_try_set(&mut x, &30), Ok(()));
    assert_eq!(store.ts_try_get(&x), Ok(Some(30)));
}
