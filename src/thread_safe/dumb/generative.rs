//! A store with a generator, behind one mutex: the generator runs while the store is
//! locked, so calls on any key wait for it.

use std::marker::PhantomData;
use std::sync::{Arc, Mutex, MutexGuard};
use vstd::prelude::*;

use crate::thread_safe::dumb_wrappers::EmptyDumbError;
use crate::thread_safe::key_locks::{lock_mutex, mutex_data, mutex_data_mut};
use crate::{copy_of, lookup, stored_under, TryCacheStore};

verus! {

/// A [`TryCacheStore`] behind one mutex, together with a fallible generator.
#[verifier::reject_recursive_types(K)]
#[verifier::reject_recursive_types(V)]
#[verifier::reject_recursive_types(E)]
#[verifier::reject_recursive_types(S)]
#[verifier::reject_recursive_types(A)]
pub struct ThreadSafeTryCacheStore<
    K,
    V: Clone,
    E,
    S: TryCacheStore<Key = K, Value = V, Error = E>,
    F: Fn(&K, A) -> Result<V, E>,
    A,
> {
    pub store: Arc<Mutex<S>>,
    pub generator: F,
    pub phantom: PhantomData<(K, V, E, A)>,
}

impl<
    K,
    V: Clone,
    E,
    S: TryCacheStore<Key = K, Value = V, Error = E>,
    F: Fn(&K, A) -> Result<V, E>,
    A,
> ThreadSafeTryCacheStore<K, V, E, S, F, A> {
    /// Puts `store` behind a mutex, with `generator` beside it.
    pub fn from_try_gen_store(store: S, generator: F) -> (r: Self)
        ensures
            r.generator == generator,
    {
        ThreadSafeTryCacheStore {
            store: Arc::new(Mutex::new(store)),
            generator,
            phantom: PhantomData,
        }
    }

    /// Locks the whole store.
    pub fn lock(&self) -> (r: Result<MutexGuard<'_, S>, EmptyDumbError>)
        ensures
            r is Err ==> r->Err_0 is Poisoned,
    {
        lock_mutex(&*self.store)
    }
}

/// `v` is what a get-or-new on `key` gives on a store holding `entries`: a clone of the
/// stored value, or else a value the generator `f` returns with success.
pub open spec fn found_or_generated<K, V: Clone, E, F: Fn(&K, A) -> Result<V, E>, A>(
    entries: Map<K, V>,
    f: F,
    key: K,
    args: A,
    v: V,
) -> bool {
    if entries.contains_key(key) {
        cloned(entries[key], v)
    } else {
        call_ensures(f, (&key, args), Ok::<V, E>(v))
    }
}

/// The stored value of `store`, or else a freshly computed one that is not stored.
pub fn get_or_gen_in<K, V: Clone, E, S: TryCacheStore<Key = K, Value = V, Error = E>, F: Fn(&K, A) -> Result<V, E>, A>(
    store: &S,
    generator: &F,
    key: &K,
    args: A,
) -> (r: Result<V, E>)
    requires
        call_requires(*generator, (key, args)),
    ensures
        S::plain() && r is Ok ==> found_or_generated(store.entries(), *generator, *key, args, r->Ok_0),
        S::infallible() && S::plain() ==> if store.entries().contains_key(*key) {
            r is Ok
        } else {
            call_ensures(*generator, (key, args), r)
        },
{
    match store.try_get(key) {
        Ok(Some(v)) => Ok(v),
        Ok(None) => generator(key, args),
        Err(e) => Err(e),
    }
}

/// The stored value of `store`, or else a freshly computed one, which is then stored.
pub fn get_or_new_in<K, V: Clone, E, S: TryCacheStore<Key = K, Value = V, Error = E>, F: Fn(&K, A) -> Result<V, E>, A>(
    store: &mut S,
    generator: &F,
    key: &K,
    args: A,
) -> (r: Result<V, E>)
    requires
        call_requires(*generator, (key, args)),
    ensures
        S::plain() && r is Ok ==> found_or_generated(old(store).entries(), *generator, *key, args, r->Ok_0),
        S::plain() && r is Ok ==> stored_under(old(store).entries(), final(store).entries(), *key, r->Ok_0),
        S::infallible() && S::plain() ==> if old(store).entries().contains_key(*key) {
            r is Ok
        } else {
            call_ensures(*generator, (key, args), r)
        },
        S::infallible() && r is Err ==> final(store).entries() == old(store).entries(),
{
    let value = match get_or_gen_in(&*store, generator, key, args) {
        Ok(v) => v,
        Err(e) => {
            return Err(e);
        },
    };
    match store.try_set(key, &value) {
        Ok(()) => Ok(value),
        Err(e) => Err(e),
    }
}

/// A freshly computed value, stored in `store` in place of what was there.
pub fn gen_new_in<K, V: Clone, E, S: TryCacheStore<Key = K, Value = V, Error = E>, F: Fn(&K, A) -> Result<V, E>, A>(
    store: &mut S,
    generator: &F,
    key: &K,
    args: A,
) -> (r: Result<V, E>)
    requires
        call_requires(*generator, (key, args)),
    ensures
        r is Ok ==> call_ensures(*generator, (key, args), r),
        S::plain() && r is Ok ==> stored_under(old(store).entries(), final(store).entries(), *key, r->Ok_0),
        S::infallible() ==> call_ensures(*generator, (key, args), r),
        S::infallible() && r is Err ==> final(store).entries() == old(store).entries(),
{
    let value = match generator(key, args) {
        Ok(v) => v,
        Err(e) => {
            return Err(e);
        },
    };
    match store.try_set(key, &value) {
        Ok(()) => Ok(value),
        Err(e) => Err(e),
    }
}

impl<
    K,
    V: Clone,
    E: From<EmptyDumbError>,
    S: TryCacheStore<Key = K, Value = V, Error = E>,
    F: Fn(&K, A) -> Result<V, E>,
    A,
> ThreadSafeTryCacheStore<K, V, E, S, F, A> {
    /// Computes a value without looking at the store or writing to it.
    pub fn try_gen(&self, key: &K, args: A) -> (r: Result<V, E>)
        requires
            call_requires(self.generator, (key, args)),
        ensures
            call_ensures(self.generator, (key, args), r),
    {
        (self.generator)(key, args)
    }

    /// Under the store's mutex: the stored value, or else a freshly computed one that is
    /// not stored.
    pub fn try_get_or_gen(&self, key: &K, args: A) -> (r: Result<V, E>)
        requires
            call_requires(self.generator, (key, args)),
        ensures
            S::plain() && r is Ok ==> exists|s: S|
                #[trigger] found_or_generated(s.entries(), self.generator, *key, args, r->Ok_0),
            S::infallible() && S::plain() && r is Err ==> call_ensures(E::from, (EmptyDumbError::Poisoned,), r->Err_0) || call_ensures(
                self.generator,
                (key, args),
                r,
            ),
    {
        let guard = match self.lock() {
            Ok(g) => g,
            Err(e) => {
                let res = Err(E::from(e));
                proof {
                    assert(call_ensures(E::from, (EmptyDumbError::Poisoned,), res->Err_0));
                }
                return res;
            },
        };
        let store = mutex_data(&guard);
        let r = get_or_gen_in(store, &self.generator, key, args);
        assert(S::plain() && r is Ok ==> found_or_generated(store.entries(), self.generator, *key, args, r->Ok_0));
        r
    }

    /// Under the store's mutex, held from the look-up to the write: the stored value, or
    /// else a freshly computed one, which is then stored.
    pub fn try_get_or_new(&self, key: &K, args: A) -> (r: Result<V, E>)
        requires
            call_requires(self.generator, (key, args)),
        ensures
            S::plain() && r is Ok ==> exists|before: S, after: S|
                #![trigger before.entries(), after.entries()]
                found_or_generated(before.entries(), self.generator, *key, args, r->Ok_0)
                    && stored_under(before.entries(), after.entries(), *key, r->Ok_0),
            S::infallible() && S::plain() && r is Err ==> call_ensures(E::from, (EmptyDumbError::Poisoned,), r->Err_0) || call_ensures(
                self.generator,
                (key, args),
                r,
            ),
    {
        let mut guard = match self.lock() {
            Ok(g) => g,
            Err(e) => {
                let res = Err(E::from(e));
                proof {
                    assert(call_ensures(E::from, (EmptyDumbError::Poisoned,), res->Err_0));
                }
                return res;
            },
        };
        let store = mutex_data_mut(&mut guard);
        let ghost before = *store;
        let r = get_or_new_in(store, &self.generator, key, args);
        assert(S::plain() && r is Ok ==> found_or_generated(before.entries(), self.generator, *key, args, r->Ok_0)
            && stored_under(before.entries(), store.entries(), *key, r->Ok_0));
        r
    }

    /// Under the store's mutex, held from the computation to the write: a freshly
    /// computed value, stored in place of what was there.
    pub fn try_gen_new(&mut self, key: &K, args: A) -> (r: Result<V, E>)
        requires
            call_requires(old(self).generator, (key, args)),
        ensures
            r is Ok ==> call_ensures(old(self).generator, (key, args), r),
            S::plain() && r is Ok ==> exists|before: S, after: S|
                #![trigger before.entries(), after.entries()]
                stored_under(before.entries(), after.entries(), *key, r->Ok_0),
            S::infallible() && r is Err ==> call_ensures(E::from, (EmptyDumbError::Poisoned,), r->Err_0) || call_ensures(
                old(self).generator,
                (key, args),
                r,
            ),
    {
        let mut guard = match self.lock() {
            Ok(g) => g,
            Err(e) => {
                let res = Err(E::from(e));
                proof {
                    assert(call_ensures(E::from, (EmptyDumbError::Poisoned,), res->Err_0));
                }
                return res;
            },
        };
        let store = mutex_data_mut(&mut guard);
        let ghost before = *store;
        let r = gen_new_in(store, &self.generator, key, args);
        assert(S::plain() && r is Ok ==> stored_under(before.entries(), store.entries(), *key, r->Ok_0));
        r
    }

    /// [`TryCacheStore::try_get`] under the store's mutex.
    pub fn try_get(&self, key: &K) -> (r: Result<Option<V>, E>)
        ensures
            S::plain() && r is Ok ==> exists|s: S| #[trigger] copy_of(r->Ok_0, lookup(s.entries(), *key)),
            S::infallible() && r is Err ==> call_ensures(E::from, (EmptyDumbError::Poisoned,), r->Err_0),
    {
        match self.lock() {
            Ok(guard) => {
                let store = mutex_data(&guard);
                let r = store.try_get(key);
                assert(S::plain() && r is Ok ==> copy_of(r->Ok_0, lookup(store.entries(), *key)));
                r
            },
            Err(e) => {
                let res = Err(E::from(e));
                proof {
                    assert(call_ensures(E::from, (EmptyDumbError::Poisoned,), res->Err_0));
                }
                res
            },
        }
    }

    /// [`TryCacheStore::try_set`] under the store's mutex.
    pub fn try_set(&self, key: &K, value: &V) -> (r: Result<(), E>)
        ensures
            S::plain() && r is Ok ==> exists|before: S, after: S|
                #![trigger before.entries(), after.entries()]
                stored_under(before.entries(), after.entries(), *key, *value),
            S::infallible() && r is Err ==> call_ensures(E::from, (EmptyDumbError::Poisoned,), r->Err_0),
    {
        match self.lock() {
            Ok(guard) => {
                let mut guard = guard;
                let store = mutex_data_mut(&mut guard);
                let ghost before = *store;
                let r = store.try_set(key, value);
                assert(S::plain() && r is Ok ==> stored_under(before.entries(), store.entries(), *key, *value));
                r
            },
            Err(e) => {
                let res = Err(E::from(e));
                proof {
                    assert(call_ensures(E::from, (EmptyDumbError::Poisoned,), res->Err_0));
                }
                res
            },
        }
    }

    /// [`TryCacheStore::try_exists`] under the store's mutex.
    pub fn try_exists(&self, key: &K) -> (r: Result<bool, E>)
        ensures
            S::plain() && r is Ok ==> exists|s: S| r->Ok_0 == #[trigger] s.entries().contains_key(*key),
            S::infallible() && r is Err ==> call_ensures(E::from, (EmptyDumbError::Poisoned,), r->Err_0),
    {
        match self.lock() {
            Ok(guard) => {
                let store = mutex_data(&guard);
                let r = store.try_exists(key);
                assert(S::plain() && r is Ok ==> r->Ok_0 == store.entries().contains_key(*key));
                r
            },
            Err(e) => {
                let res = Err(E::from(e));
                proof {
                    assert(call_ensures(E::from, (EmptyDumbError::Poisoned,), res->Err_0));
                }
                res
            },
        }
    }
}

} // verus!
