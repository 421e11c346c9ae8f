//! Keyed cache stores: plain and fallible stores, stores with a generator that fills
//! missing entries, and thread-safe stores that lock each key on its own.
//!
//! A store's contracts speak of the map of entries it holds. They are exact for keys
//! that behave as plain values (see [`CacheStore::plain`]); values are handed out as
//! clones, so a value read back is a clone of the one stored: the same value where
//! cloning is exact, the same bytes for a byte vector.
//!
//! The thread-safe stores keep one read-write lock per key. A key's lock is allocated
//! on its own the first time the key is locked and is never freed, so a handle stays
//! valid however the table of locks grows; the memory this takes grows with the
//! number of distinct keys ever locked.

pub mod generative;
pub mod stores;
pub mod thread_safe;

use std::convert::Infallible;
use std::marker::PhantomData;
use vstd::prelude::*;

verus! {

/// What a lookup of `k` in `m` gives.
pub open spec fn lookup<K, V>(m: Map<K, V>, k: K) -> Option<V> {
    if m.contains_key(k) {
        Some(m[k])
    } else {
        None
    }
}

/// `T::clone` returns a value equal to its input.
pub open spec fn exact_clone<T: Clone>() -> bool {
    forall|a: T, b: T| #[trigger] call_ensures(T::clone, (&a,), b) ==> a == b
}

/// `got` is what a look-up that found `stored` hands out: nothing where nothing is
/// stored, else a clone of the stored value.
pub open spec fn copy_of<V: Clone>(got: Option<V>, stored: Option<V>) -> bool {
    match (got, stored) {
        (Some(g), Some(s)) => cloned(s, g),
        (None, None) => true,
        _ => false,
    }
}

/// `after` is `before` once a clone of `v` has been stored under `k`.
pub open spec fn stored_under<K, V: Clone>(before: Map<K, V>, after: Map<K, V>, k: K, v: V) -> bool {
    &&& after.contains_key(k)
    &&& cloned(v, after[k])
    &&& after == before.insert(k, after[k])
}

/// Infallible cache store.
pub trait CacheStore {
    type Key;
    type Value: Clone;

    /// The entries the store holds.
    spec fn entries(&self) -> Map<Self::Key, Self::Value>;

    /// Keys behave as plain values: equal keys hash and compare alike, and a clone of a
    /// key equals it. The contracts below are exact under it.
    spec fn plain() -> bool;

    /// Returns a clone of the entry for `key`, if there is one.
    fn get(&self, key: &Self::Key) -> (r: Option<Self::Value>)
        ensures
            Self::plain() ==> copy_of(r, lookup(self.entries(), *key)),
    ;

    /// Stores a clone of `value` under `key`, replacing what was there.
    fn set(&mut self, key: &Self::Key, value: &Self::Value)
        ensures
            Self::plain() ==> stored_under(old(self).entries(), final(self).entries(), *key, *value),
    ;

    /// Whether there is an entry for `key`.
    fn contains(&self, key: &Self::Key) -> (r: bool)
        ensures
            Self::plain() ==> r == self.entries().contains_key(*key),
    ;
}

/// A clone of a byte vector holds the same bytes.
pub proof fn lemma_cloned_bytes(a: Vec<u8>, b: Vec<u8>)
    requires
        cloned(a, b),
    ensures
        a@ == b@,
{
    if a != b {
        assert(a@ =~= b@);
    }
}

/// Round trip: after `set(k, v)`, `get(k)` gives a clone of `v`: `v` itself where
/// cloning is exact, and the same bytes where `v` is a byte vector, empty or not.
/// `after` is what the store holds after the `set` and `got` what the `get` returned,
/// as their contracts give them.
pub proof fn lemma_set_then_get<K, V: Clone>(before: Map<K, V>, after: Map<K, V>, k: K, v: V, got: Option<V>)
    requires
        stored_under(before, after, k, v),
        copy_of(got, lookup(after, k)),
    ensures
        got is Some,
        exact_clone::<V>() ==> got == Some(v),
{
}

/// [`lemma_set_then_get`] for byte vectors: the bytes read back are the bytes stored.
pub proof fn lemma_set_then_get_bytes<K>(
    before: Map<K, Vec<u8>>,
    after: Map<K, Vec<u8>>,
    k: K,
    v: Vec<u8>,
    got: Option<Vec<u8>>,
)
    requires
        stored_under(before, after, k, v),
        copy_of(got, lookup(after, k)),
    ensures
        got is Some,
        got->0@ == v@,
{
    lemma_cloned_bytes(v, after[k]);
    lemma_cloned_bytes(after[k], got->0);
}

/// Presence: a key that no `set` has stored stays absent when another key is set, and
/// is present once `set(k, v)` has stored it, whatever the store held before.
pub proof fn lemma_exists_after_set<K, V: Clone>(
    before: Map<K, V>,
    after: Map<K, V>,
    k: K,
    v: V,
    other: K,
)
    requires
        stored_under(before, after, k, v),
        !before.contains_key(other),
        other != k,
    ensures
        after.contains_key(k),
        !after.contains_key(other),
{
}

/// A `set` on one key leaves every other key as it was.
pub proof fn lemma_set_keeps_other_keys<K, V: Clone>(
    before: Map<K, V>,
    after: Map<K, V>,
    k: K,
    v: V,
    other: K,
)
    requires
        stored_under(before, after, k, v),
        other != k,
    ensures
        lookup(after, other) == lookup(before, other),
{
}

/// Fallible cache store. Each operation either does what its counterpart in
/// [`CacheStore`] does, or fails with the store's error.
pub trait TryCacheStore {
    type Key;
    type Value: Clone;
    type Error;

    /// The entries the store holds.
    spec fn entries(&self) -> Map<Self::Key, Self::Value>;

    /// As [`CacheStore::plain`].
    spec fn plain() -> bool;

    /// The store never fails.
    spec fn infallible() -> bool;

    /// `e` is an error that reading `key` may give.
    spec fn get_fails(&self, key: Self::Key, e: Self::Error) -> bool;

    /// `e` is an error that storing `value` under `key` may give.
    spec fn set_fails(&self, key: Self::Key, value: Self::Value, e: Self::Error) -> bool;

    /// `e` is an error that asking whether `key` has an entry may give.
    spec fn exists_fails(&self, key: Self::Key, e: Self::Error) -> bool;

    /// Returns a clone of the entry for `key`, if there is one.
    fn try_get(&self, key: &Self::Key) -> (r: Result<Option<Self::Value>, Self::Error>)
        ensures
            Self::infallible() ==> r is Ok,
            Self::plain() ==> (r is Ok ==> copy_of(r->Ok_0, lookup(self.entries(), *key))),
            r is Err ==> self.get_fails(*key, r->Err_0),
    ;

    /// Stores a clone of `value` under `key`. On failure nothing is said of what the
    /// store holds.
    fn try_set(&mut self, key: &Self::Key, value: &Self::Value) -> (r: Result<(), Self::Error>)
        ensures
            Self::infallible() ==> r is Ok,
            Self::plain() ==> (r is Ok ==> stored_under(
                old(self).entries(),
                final(self).entries(),
                *key,
                *value,
            )),
            r is Err ==> old(self).set_fails(*key, *value, r->Err_0),
    ;

    /// Whether there is an entry for `key`.
    fn try_exists(&self, key: &Self::Key) -> (r: Result<bool, Self::Error>)
        ensures
            Self::infallible() ==> r is Ok,
            Self::plain() ==> (r is Ok ==> r->Ok_0 == self.entries().contains_key(*key)),
            r is Err ==> self.exists_fails(*key, r->Err_0),
    ;
}

/// Every [`CacheStore`] is a [`TryCacheStore`] that never fails.
impl<T: CacheStore> TryCacheStore for T {
    type Key = T::Key;
    type Value = T::Value;
    type Error = Infallible;

    open spec fn entries(&self) -> Map<T::Key, T::Value> {
        CacheStore::entries(self)
    }

    open spec fn plain() -> bool {
        <T as CacheStore>::plain()
    }

    open spec fn infallible() -> bool {
        true
    }

    open spec fn get_fails(&self, key: T::Key, e: Infallible) -> bool {
        false
    }

    open spec fn set_fails(&self, key: T::Key, value: T::Value, e: Infallible) -> bool {
        false
    }

    open spec fn exists_fails(&self, key: T::Key, e: Infallible) -> bool {
        false
    }

    fn try_get(&self, key: &T::Key) -> (r: Result<Option<T::Value>, Infallible>) {
        Ok(self.get(key))
    }

    fn try_set(&mut self, key: &T::Key, value: &T::Value) -> (r: Result<(), Infallible>) {
        self.set(key, value);
        Ok(())
    }

    fn try_exists(&self, key: &T::Key) -> (r: Result<bool, Infallible>) {
        Ok(self.contains(key))
    }
}

/// A [`TryCacheStore`] whose errors are converted into `ET`.
#[verifier::reject_recursive_types(K)]
#[verifier::reject_recursive_types(V)]
#[verifier::reject_recursive_types(E)]
pub struct TryCacheStoreErrorMap<K, V: Clone, E, ET, S: TryCacheStore<Key = K, Value = V, Error = E>> {
    pub store: S,
    pub phantom: PhantomData<(K, V, E, ET)>,
}

impl<K, V: Clone, E, ET: From<E>, S: TryCacheStore<Key = K, Value = V, Error = E>> TryCacheStoreErrorMap<
    K,
    V,
    E,
    ET,
    S,
> {
    pub fn from_store(store: S) -> (r: Self)
        ensures
            r.store == store,
    {
        TryCacheStoreErrorMap { store, phantom: PhantomData }
    }
}

impl<K, V: Clone, E, ET: From<E>, S: TryCacheStore<Key = K, Value = V, Error = E>> From<S> for TryCacheStoreErrorMap<K, V, E, ET, S> {
    fn from(store: S) -> (r: Self) {
        TryCacheStoreErrorMap { store, phantom: PhantomData }
    }
}

impl<K, V: Clone, E, ET: From<E>, S: TryCacheStore<Key = K, Value = V, Error = E>> vstd::std_specs::convert::FromSpecImpl<S> for TryCacheStoreErrorMap<K, V, E, ET, S> {
    open spec fn obeys_from_spec() -> bool {
        true
    }

    open spec fn from_spec(store: S) -> Self {
        TryCacheStoreErrorMap { store, phantom: PhantomData }
    }
}

impl<K, V: Clone, E, ET: From<E>, S: TryCacheStore<Key = K, Value = V, Error = E>> TryCacheStore for TryCacheStoreErrorMap<
    K,
    V,
    E,
    ET,
    S,
> {
    type Key = K;
    type Value = V;
    type Error = ET;

    open spec fn entries(&self) -> Map<K, V> {
        self.store.entries()
    }

    open spec fn plain() -> bool {
        S::plain()
    }

    open spec fn infallible() -> bool {
        S::infallible()
    }

    /// The inner store's read error, converted by `ET::from`.
    open spec fn get_fails(&self, key: K, e: ET) -> bool {
        exists|inner: E| #[trigger] self.store.get_fails(key, inner) && call_ensures(ET::from, (inner,), e)
    }

    /// The inner store's write error, converted by `ET::from`.
    open spec fn set_fails(&self, key: K, value: V, e: ET) -> bool {
        exists|inner: E| #[trigger] self.store.set_fails(key, value, inner) && call_ensures(ET::from, (inner,), e)
    }

    /// The inner store's error, converted by `ET::from`.
    open spec fn exists_fails(&self, key: K, e: ET) -> bool {
        exists|inner: E| #[trigger] self.store.exists_fails(key, inner) && call_ensures(ET::from, (inner,), e)
    }

    fn try_get(&self, key: &K) -> (r: Result<Option<V>, ET>) {
        match self.store.try_get(key) {
            Ok(v) => Ok(v),
            Err(e) => {
                let ghost inner = e;
                let res = Err(ET::from(e));
                proof {
                    assert(self.store.get_fails(*key, inner));
                }
                res
            },
        }
    }

    fn try_set(&mut self, key: &K, value: &V) -> (r: Result<(), ET>) {
        match self.store.try_set(key, value) {
            Ok(()) => Ok(()),
            Err(e) => {
                let ghost inner = e;
                let res = Err(ET::from(e));
                proof {
                    assert(old(self).store.set_fails(*key, *value, inner));
                }
                res
            },
        }
    }

    fn try_exists(&self, key: &K) -> (r: Result<bool, ET>) {
        match self.store.try_exists(key) {
            Ok(b) => Ok(b),
            Err(e) => {
                let ghost inner = e;
                let res = Err(ET::from(e));
                proof {
                    assert(self.store.exists_fails(*key, inner));
                }
                res
            },
        }
    }
}

} // verus!
