//! Stores for common uses: an in-memory map, its thread-safe counterpart, and stores
//! over the files of a directory.

pub mod file_stores;

use std::collections::HashMap;
use std::hash::Hash;
use vstd::prelude::*;
use vstd::std_specs::hash::obeys_key_model;

use crate::thread_safe::dumb_wrappers::EmptyDumbError;
use crate::thread_safe::key_locks::{Blocking, KeyLocks, LockMode, RwLockAnyGuardKey};
use crate::thread_safe::ThreadSafeTryCacheStore;
use crate::{copy_of, exact_clone, CacheStore};

verus! {

broadcast use vstd::std_specs::hash::group_hash_axioms;

/// Single-threaded store that keeps its entries in a hash map.
pub struct MemoryStore<K, V> {
    cache: HashMap<K, V>,
}

impl<K, V> View for MemoryStore<K, V> {
    type V = Map<K, V>;

    closed spec fn view(&self) -> Map<K, V> {
        self.cache@
    }
}

impl<K, V> MemoryStore<K, V> {
    pub fn new() -> (r: Self)
        ensures
            r@ == Map::<K, V>::empty(),
    {
        MemoryStore { cache: HashMap::new() }
    }

    pub fn from_hashmap(hashmap: HashMap<K, V>) -> (r: Self)
        ensures
            r@ == hashmap@,
    {
        MemoryStore { cache: hashmap }
    }
}

impl<K, V> Default for MemoryStore<K, V> {
    /// An empty store.
    fn default() -> (r: Self)
        ensures
            r@ == Map::<K, V>::empty(),
    {
        MemoryStore::new()
    }
}

impl<K: Hash + Eq + Clone, V: Clone> CacheStore for MemoryStore<K, V> {
    type Key = K;
    type Value = V;

    open spec fn entries(&self) -> Map<K, V> {
        self@
    }

    open spec fn plain() -> bool {
        obeys_key_model::<K>() && exact_clone::<K>()
    }

    fn get(&self, key: &K) -> (r: Option<V>) {
        match self.cache.get(key) {
            Some(v) => Some(v.clone()),
            None => None,
        }
    }

    fn set(&mut self, key: &K, value: &V) {
        self.cache.insert(key.clone(), value.clone());
    }

    fn contains(&self, key: &K) -> (r: bool) {
        self.cache.contains_key(key)
    }
}

/// With `u64` or `usize` keys the contracts of [`MemoryStore`] are exact.
pub proof fn lemma_memory_store_integer_keys_plain<V: Clone>()
    ensures
        <MemoryStore<u64, V> as CacheStore>::plain(),
        <MemoryStore<usize, V> as CacheStore>::plain(),
{
    assert forall|a: u64, b: u64| #[trigger] call_ensures(u64::clone, (&a,), b) implies a == b by {}
    assert forall|a: usize, b: usize| #[trigger] call_ensures(usize::clone, (&a,), b) implies a
        == b by {}
}

/// Thread-safe store in memory: each key's entry lives behind that key's own lock.
#[verifier::reject_recursive_types(K)]
#[verifier::reject_recursive_types(V)]
pub struct ThreadSafeMemoryStore<K, V: 'static> {
    cache: KeyLocks<K, Option<V>>,
    /// The entries the store started with; a key's lock takes its entry from here
    /// when it is created.
    seed: HashMap<K, V>,
}

impl<K: Hash + Eq + Clone, V: Clone + 'static> ThreadSafeMemoryStore<K, V> {
    /// A store that holds the entries of `cache`.
    pub fn new(cache: HashMap<K, V>) -> Self {
        ThreadSafeMemoryStore { cache: KeyLocks::new(), seed: cache }
    }

    /// The entry a new lock for `key` starts with.
    fn seed_of(&self, key: &K) -> Option<V> {
        match self.seed.get(key) {
            Some(v) => Some(v.clone()),
            None => None,
        }
    }
}

impl<K: Hash + Eq + Clone, V: Clone + 'static> ThreadSafeMemoryStore<K, V> {
    /// The store's handles are the lock directory's, and what it reads and writes is
    /// the value their locks guard.
    proof fn lemma_handles(&self)
        ensures
            forall|l: RwLockAnyGuardKey<K, Option<V>>| #[trigger] Self::lock_key(l) == l.key(),
            forall|l: RwLockAnyGuardKey<K, Option<V>>| #[trigger] Self::lock_is_exclusive(l)
                == l.is_exclusive(),
            forall|e: EmptyDumbError| #[trigger] Self::would_block(e) == (e is WouldBlock),
            forall|l: RwLockAnyGuardKey<K, Option<V>>, r: Result<Option<V>, EmptyDumbError>| #[trigger]
                self.reads(l, r) == (r is Ok && copy_of(r->Ok_0, l.value())),
            forall|
                b: RwLockAnyGuardKey<K, Option<V>>,
                a: RwLockAnyGuardKey<K, Option<V>>,
                v: V,
                r: Result<(), EmptyDumbError>,
            | #[trigger] self.writes(b, a, v, r) == (r is Ok && a.value() is Some && cloned(
                v,
                a.value()->Some_0,
            )),
            forall|l: RwLockAnyGuardKey<K, Option<V>>, r: Result<bool, EmptyDumbError>| #[trigger]
                self.checks(l, r) == (r == Ok::<bool, EmptyDumbError>(l.value() is Some)),
    {
    }
}

impl<K: Hash + Eq + Clone, V: Clone + 'static> Default for ThreadSafeMemoryStore<K, V> {
    /// An empty store.
    fn default() -> Self {
        ThreadSafeMemoryStore { cache: KeyLocks::new(), seed: HashMap::new() }
    }
}

impl<K: Hash + Eq + Clone, V: Clone + 'static> ThreadSafeTryCacheStore for ThreadSafeMemoryStore<
    K,
    V,
> {
    type Key = K;
    type Value = V;
    type Lock = RwLockAnyGuardKey<K, Option<V>>;
    type Error = EmptyDumbError;

    open spec fn lock_key(lock: Self::Lock) -> K {
        lock.key()
    }

    open spec fn lock_is_exclusive(lock: Self::Lock) -> bool {
        lock.is_exclusive()
    }

    open spec fn would_block(e: EmptyDumbError) -> bool {
        e is WouldBlock
    }

    open spec fn reads(&self, lock: Self::Lock, r: Result<Option<V>, EmptyDumbError>) -> bool {
        r is Ok && copy_of(r->Ok_0, lock.value())
    }

    open spec fn writes(
        &self,
        before: Self::Lock,
        after: Self::Lock,
        value: V,
        r: Result<(), EmptyDumbError>,
    ) -> bool {
        r is Ok && after.value() is Some && cloned(value, after.value()->Some_0)
    }

    open spec fn checks(&self, lock: Self::Lock, r: Result<bool, EmptyDumbError>) -> bool {
        r == Ok::<bool, EmptyDumbError>(lock.value() is Some)
    }

    fn ts_try_get(&self, handle: &Self::Lock) -> (r: Result<Option<V>, EmptyDumbError>) {
        proof {
            self.lemma_handles();
        }
        Ok(handle.data().clone())
    }

    fn ts_try_set(&self, handle: &mut Self::Lock, value: &V) -> (r: Result<(), EmptyDumbError>) {
        proof {
            self.lemma_handles();
        }
        handle.replace_data(Some(value.clone()));
        Ok(())
    }

    fn ts_try_exists(&self, handle: &Self::Lock) -> (r: Result<bool, EmptyDumbError>) {
        proof {
            self.lemma_handles();
        }
        Ok(handle.data().is_some())
    }

    fn ts_try_xlock(&self, key: &K) -> (r: Result<Self::Lock, EmptyDumbError>) {
        proof {
            self.lemma_handles();
        }
        self.cache.acquire(key, LockMode::Exclusive, Blocking::Block, self.seed_of(key))
    }

    fn ts_try_slock(&self, key: &K) -> (r: Result<Self::Lock, EmptyDumbError>) {
        proof {
            self.lemma_handles();
        }
        self.cache.acquire(key, LockMode::Shared, Blocking::Block, self.seed_of(key))
    }

    fn ts_try_xlock_nblock(&self, key: &K) -> (r: Result<Self::Lock, EmptyDumbError>) {
        proof {
            self.lemma_handles();
        }
        self.cache.acquire(key, LockMode::Exclusive, Blocking::TryOnce, self.seed_of(key))
    }

    fn ts_try_slock_nblock(&self, key: &K) -> (r: Result<Self::Lock, EmptyDumbError>) {
        proof {
            self.lemma_handles();
        }
        self.cache.acquire(key, LockMode::Shared, Blocking::TryOnce, self.seed_of(key))
    }
}

} // verus!
