//! Thread-safe wrappers that lock the whole store for each call, whichever key it is
//! for: calls on different keys wait for each other.

pub mod generative;

use std::marker::PhantomData;
use std::sync::{Arc, Mutex, MutexGuard};
use vstd::prelude::*;

use super::dumb_wrappers::EmptyDumbError;
use super::key_locks::{lock_mutex, mutex_data, mutex_data_mut};
use crate::{copy_of, lookup, stored_under, TryCacheStore};

verus! {

/// A [`TryCacheStore`] behind one mutex.
#[verifier::reject_recursive_types(K)]
#[verifier::reject_recursive_types(V)]
#[verifier::reject_recursive_types(E)]
#[verifier::reject_recursive_types(S)]
pub struct ThreadSafeTryCacheStore<K, V, E, S: TryCacheStore<Key = K, Value = V, Error = E>> {
    pub store: Arc<Mutex<S>>,
    pub phantom: PhantomData<(K, V, E)>,
}

impl<K, V, E, S: TryCacheStore<Key = K, Value = V, Error = E>> ThreadSafeTryCacheStore<K, V, E, S> {
    /// Puts `store` behind a mutex.
    pub fn from_try_store(store: S) -> Self {
        ThreadSafeTryCacheStore { store: Arc::new(Mutex::new(store)), phantom: PhantomData }
    }

    /// Locks the whole store.
    pub fn lock(&self) -> (r: Result<MutexGuard<'_, S>, EmptyDumbError>)
        ensures
            r is Err ==> r->Err_0 is Poisoned,
    {
        lock_mutex(&*self.store)
    }
}

impl<K, V: Clone, E: From<EmptyDumbError>, S: TryCacheStore<Key = K, Value = V, Error = E>> ThreadSafeTryCacheStore<
    K,
    V,
    E,
    S,
> {
    /// [`TryCacheStore::try_get`] under the store's mutex.
    pub fn try_get(&self, key: &K) -> (r: Result<Option<V>, E>)
        ensures
            S::plain() && r is Ok ==> exists|s: S| #[trigger] copy_of(r->Ok_0, lookup(s.entries(), *key)),
            S::infallible() && r is Err ==> call_ensures(E::from, (EmptyDumbError::Poisoned,), r->Err_0),
    {
        match self.lock() {
            Ok(guard) => {
                let store = mutex_data(&guard);
                let r = store.try_get(key);
                assert(S::plain() && r is Ok ==> copy_of(r->Ok_0, lookup(store.entries(), *key)));
                r
            },
            Err(e) => {
                let res = Err(E::from(e));
                proof {
                    assert(call_ensures(E::from, (EmptyDumbError::Poisoned,), res->Err_0));
                }
                res
            },
        }
    }

    /// [`TryCacheStore::try_set`] under the store's mutex.
    pub fn try_set(&self, key: &K, value: &V) -> (r: Result<(), E>)
        ensures
            S::plain() && r is Ok ==> exists|before: S, after: S|
                #![trigger before.entries(), after.entries()]
                stored_under(before.entries(), after.entries(), *key, *value),
            S::infallible() && r is Err ==> call_ensures(E::from, (EmptyDumbError::Poisoned,), r->Err_0),
    {
        match self.lock() {
            Ok(guard) => {
                let mut guard = guard;
                let store = mutex_data_mut(&mut guard);
                let ghost before = *store;
                let r = store.try_set(key, value);
                assert(S::plain() && r is Ok ==> stored_under(before.entries(), store.entries(), *key, *value));
                r
            },
            Err(e) => {
                let res = Err(E::from(e));
                proof {
                    assert(call_ensures(E::from, (EmptyDumbError::Poisoned,), res->Err_0));
                }
                res
            },
        }
    }

    /// [`TryCacheStore::try_exists`] under the store's mutex.
    pub fn try_exists(&self, key: &K) -> (r: Result<bool, E>)
        ensures
            S::plain() && r is Ok ==> exists|s: S| r->Ok_0 == #[trigger] s.entries().contains_key(*key),
            S::infallible() && r is Err ==> call_ensures(E::from, (EmptyDumbError::Poisoned,), r->Err_0),
    {
        match self.lock() {
            Ok(guard) => {
                let store = mutex_data(&guard);
                let r = store.try_exists(key);
                assert(S::plain() && r is Ok ==> r->Ok_0 == store.entries().contains_key(*key));
                r
            },
            Err(e) => {
                let res = Err(E::from(e));
                proof {
                    assert(call_ensures(E::from, (EmptyDumbError::Poisoned,), res->Err_0));
                }
                res
            },
        }
    }
}

} // verus!
