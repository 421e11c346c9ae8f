//! Stores with a generator: a function that computes the value of a key when the
//! store has none. Extra arguments reach the generator but are not part of the key.

use std::marker::PhantomData;
use vstd::prelude::*;

use crate::{exact_clone, stored_under, CacheStore, TryCacheStore};

verus! {

/// Infallible store with a generator.
pub trait GenCacheStore: CacheStore {
    type Args;

    /// The generator accepts `key` and `args`.
    spec fn can_generate(&self, key: Self::Key, args: Self::Args) -> bool;

    /// `v` is a value that the generator may return for `key` and `args`.
    spec fn generates(&self, key: Self::Key, args: Self::Args, v: Self::Value) -> bool;

    /// Computes a value without looking at the store or writing to it.
    fn gen(&self, key: &Self::Key, args: Self::Args) -> (r: Self::Value)
        requires
            self.can_generate(*key, args),
        ensures
            self.generates(*key, args, r),
    ;

    /// The stored value, or else a freshly computed one that is not stored.
    fn get_or_gen(&self, key: &Self::Key, args: Self::Args) -> (r: Self::Value)
        requires
            self.can_generate(*key, args),
        ensures
            Self::plain() ==> if self.entries().contains_key(*key) {
                cloned(self.entries()[*key], r)
            } else {
                self.generates(*key, args, r)
            },
    ;

    /// The stored value, or else a freshly computed one, which is then stored.
    fn get_or_new(&mut self, key: &Self::Key, args: Self::Args) -> (r: Self::Value)
        requires
            old(self).can_generate(*key, args),
        ensures
            Self::plain() ==> if old(self).entries().contains_key(*key) {
                cloned(old(self).entries()[*key], r)
            } else {
                old(self).generates(*key, args, r)
            },
            Self::plain() ==> stored_under(old(self).entries(), final(self).entries(), *key, r),
            forall|k: Self::Key, a: Self::Args| #[trigger] final(self).can_generate(k, a)
                == old(self).can_generate(k, a),
            forall|k: Self::Key, a: Self::Args, v: Self::Value| #[trigger] final(self).generates(k, a, v)
                == old(self).generates(k, a, v),
    ;

    /// Computes a value and stores it, replacing what was stored.
    fn gen_new(&mut self, key: &Self::Key, args: Self::Args) -> (r: Self::Value)
        requires
            old(self).can_generate(*key, args),
        ensures
            old(self).generates(*key, args, r),
            Self::plain() ==> stored_under(old(self).entries(), final(self).entries(), *key, r),
            forall|k: Self::Key, a: Self::Args| #[trigger] final(self).can_generate(k, a)
                == old(self).can_generate(k, a),
            forall|k: Self::Key, a: Self::Args, v: Self::Value| #[trigger] final(self).generates(k, a, v)
                == old(self).generates(k, a, v),
    ;
}

/// Memoization: two `get_or_new(k, _)` calls in a row on a key the store did not
/// hold run the generator once, in the first call; the second gives a clone of the
/// first's value, the value itself where cloning is exact, and leaves the key as the
/// first call stored it. `first` and `second` are what the calls returned and
/// `after_first` and `after_second` what the store held after each, as `get_or_new`'s
/// contract gives them.
pub proof fn lemma_get_or_new_twice<S: GenCacheStore>(
    store: S,
    k: S::Key,
    args1: S::Args,
    args2: S::Args,
    first: S::Value,
    after_first: S,
    second: S::Value,
    after_second: S,
)
    requires
        S::plain(),
        !store.entries().contains_key(k),
        store.generates(k, args1, first),
        stored_under(store.entries(), after_first.entries(), k, first),
        if after_first.entries().contains_key(k) {
            cloned(after_first.entries()[k], second)
        } else {
            after_first.generates(k, args2, second)
        },
        stored_under(after_first.entries(), after_second.entries(), k, second),
    ensures
        after_first.entries().contains_key(k),
        cloned(first, after_first.entries()[k]),
        cloned(after_first.entries()[k], second),
        exact_clone::<S::Value>() ==> second == first,
        exact_clone::<S::Value>() ==> after_second.entries() == after_first.entries(),
{
    if exact_clone::<S::Value>() {
        assert(after_first.entries()[k] == first);
        assert(second == first);
        assert(after_second.entries()[k] == second);
        assert(after_second.entries() =~= after_first.entries());
    }
}

/// A [`CacheStore`] together with a generator function.
#[verifier::reject_recursive_types(K)]
#[verifier::reject_recursive_types(V)]
#[verifier::reject_recursive_types(A)]
pub struct GenCacheStoreWrapper<K, V: Clone, A, S: CacheStore<Key = K, Value = V>, F: Fn(&K, A) -> V> {
    pub store: S,
    pub generator: F,
    pub phantom: PhantomData<(K, V, A)>,
}

impl<K, V: Clone, A, F: Fn(&K, A) -> V, S: CacheStore<Key = K, Value = V>> GenCacheStoreWrapper<
    K,
    V,
    A,
    S,
    F,
> {
    pub fn new(store: S, generator: F) -> (r: Self)
        ensures
            r.store == store,
            r.generator == generator,
            forall|k: K, a: A| #[trigger] GenCacheStore::can_generate(&r, k, a) == call_requires(generator, (&k, a)),
            forall|k: K, a: A, v: V| #[trigger] GenCacheStore::generates(&r, k, a, v) == call_ensures(generator, (&k, a), v),
    {
        GenCacheStoreWrapper { store, generator, phantom: PhantomData }
    }
}

impl<K, V: Clone, A, F: Fn(&K, A) -> V, S: CacheStore<Key = K, Value = V>> CacheStore for GenCacheStoreWrapper<
    K,
    V,
    A,
    S,
    F,
> {
    type Key = K;
    type Value = V;

    open spec fn entries(&self) -> Map<K, V> {
        self.store.entries()
    }

    open spec fn plain() -> bool {
        S::plain()
    }

    fn get(&self, key: &K) -> (r: Option<V>) {
        self.store.get(key)
    }

    fn set(&mut self, key: &K, value: &V) {
        self.store.set(key, value)
    }

    fn contains(&self, key: &K) -> (r: bool) {
        self.store.contains(key)
    }
}

impl<K, V: Clone, A, F: Fn(&K, A) -> V, S: CacheStore<Key = K, Value = V>> GenCacheStore for GenCacheStoreWrapper<
    K,
    V,
    A,
    S,
    F,
> {
    type Args = A;

    open spec fn can_generate(&self, key: K, args: A) -> bool {
        call_requires(self.generator, (&key, args))
    }

    open spec fn generates(&self, key: K, args: A, v: V) -> bool {
        call_ensures(self.generator, (&key, args), v)
    }

    fn gen(&self, key: &K, args: A) -> (r: V) {
        (self.generator)(key, args)
    }

    fn get_or_gen(&self, key: &K, args: A) -> (r: V) {
        match self.store.get(key) {
            Some(v) => v,
            None => self.gen(key, args),
        }
    }

    fn get_or_new(&mut self, key: &K, args: A) -> (r: V) {
        let value = self.get_or_gen(key, args);
        self.store.set(key, &value);
        value
    }

    fn gen_new(&mut self, key: &K, args: A) -> (r: V) {
        let value = self.gen(key, args);
        self.store.set(key, &value);
        value
    }
}

/// Fallible store with a fallible generator. An operation of several steps stops at the
/// first failure and undoes nothing.
pub trait TryGenCacheStore: TryCacheStore {
    type Args;

    /// The generator accepts `key` and `args`.
    spec fn can_generate(&self, key: Self::Key, args: Self::Args) -> bool;

    /// `v` is a value that the generator may return, with success, for `key` and `args`.
    spec fn generates(&self, key: Self::Key, args: Self::Args, v: Self::Value) -> bool;

    /// `r` is what the generator may give for `key` and `args`, its error converted into
    /// the store's.
    spec fn generation(&self, key: Self::Key, args: Self::Args, r: Result<Self::Value, Self::Error>) -> bool;

    /// Computes a value without looking at the store or writing to it.
    fn try_gen(&self, key: &Self::Key, args: Self::Args) -> (r: Result<Self::Value, Self::Error>)
        requires
            self.can_generate(*key, args),
        ensures
            self.generation(*key, args, r),
            r is Ok ==> self.generates(*key, args, r->Ok_0),
    ;

    /// The stored value, or else a freshly computed one that is not stored.
    fn try_get_or_gen(&self, key: &Self::Key, args: Self::Args) -> (r: Result<
        Self::Value,
        Self::Error,
    >)
        requires
            self.can_generate(*key, args),
        ensures
            Self::plain() && r is Ok ==> if self.entries().contains_key(*key) {
                cloned(self.entries()[*key], r->Ok_0)
            } else {
                self.generates(*key, args, r->Ok_0)
            },
            Self::infallible() && Self::plain() ==> if self.entries().contains_key(*key) {
                r is Ok
            } else {
                self.generation(*key, args, r)
            },
            r is Err ==> self.get_fails(*key, r->Err_0) || self.generation(*key, args, r),
    ;

    /// The stored value, or else a freshly computed one, which is then stored.
    fn try_get_or_new(&mut self, key: &Self::Key, args: Self::Args) -> (r: Result<
        Self::Value,
        Self::Error,
    >)
        requires
            old(self).can_generate(*key, args),
        ensures
            Self::plain() && r is Ok ==> if old(self).entries().contains_key(*key) {
                cloned(old(self).entries()[*key], r->Ok_0)
            } else {
                old(self).generates(*key, args, r->Ok_0)
            },
            Self::plain() && r is Ok ==> stored_under(
                old(self).entries(),
                final(self).entries(),
                *key,
                r->Ok_0,
            ),
            Self::infallible() && Self::plain() ==> if old(self).entries().contains_key(*key) {
                r is Ok
            } else {
                old(self).generation(*key, args, r)
            },
            Self::infallible() && r is Err ==> final(self).entries() == old(self).entries(),
            r is Err ==> old(self).get_fails(*key, r->Err_0) || old(self).generation(*key, args, r)
                || exists|v: Self::Value| #[trigger] old(self).set_fails(*key, v, r->Err_0),
            forall|k: Self::Key, a: Self::Args| #[trigger] final(self).can_generate(k, a)
                == old(self).can_generate(k, a),
            forall|k: Self::Key, a: Self::Args, v: Self::Value| #[trigger] final(self).generates(k, a, v)
                == old(self).generates(k, a, v),
            forall|k: Self::Key, a: Self::Args, g: Result<Self::Value, Self::Error>| #[trigger] final(self).generation(k, a, g)
                == old(self).generation(k, a, g),
    ;

    /// Computes a value and stores it, replacing what was stored.
    fn try_gen_new(&mut self, key: &Self::Key, args: Self::Args) -> (r: Result<
        Self::Value,
        Self::Error,
    >)
        requires
            old(self).can_generate(*key, args),
        ensures
            r is Ok ==> old(self).generates(*key, args, r->Ok_0),
            Self::plain() && r is Ok ==> stored_under(
                old(self).entries(),
                final(self).entries(),
                *key,
                r->Ok_0,
            ),
            Self::infallible() ==> old(self).generation(*key, args, r),
            r is Err ==> old(self).generation(*key, args, r) || exists|v: Self::Value|
                #[trigger] old(self).set_fails(*key, v, r->Err_0),
            Self::infallible() && r is Err ==> final(self).entries() == old(self).entries(),
            forall|k: Self::Key, a: Self::Args| #[trigger] final(self).can_generate(k, a)
                == old(self).can_generate(k, a),
            forall|k: Self::Key, a: Self::Args, v: Self::Value| #[trigger] final(self).generates(k, a, v)
                == old(self).generates(k, a, v),
            forall|k: Self::Key, a: Self::Args, g: Result<Self::Value, Self::Error>| #[trigger] final(self).generation(k, a, g)
                == old(self).generation(k, a, g),
    ;
}

/// A [`TryCacheStore`] together with a fallible generator, whose errors are converted
/// into the store's.
#[verifier::reject_recursive_types(K)]
#[verifier::reject_recursive_types(V)]
#[verifier::reject_recursive_types(E)]
#[verifier::reject_recursive_types(A)]
#[verifier::reject_recursive_types(FnErr)]
pub struct TryGenCacheStoreWrapper<
    K,
    V: Clone,
    E,
    A,
    FnErr: Into<E>,
    S: TryCacheStore<Key = K, Value = V, Error = E>,
    F: Fn(&K, A) -> Result<V, FnErr>,
> {
    pub store: S,
    pub try_generator: F,
    pub phantom: PhantomData<(K, V, E, A)>,
}

impl<
    K,
    V: Clone,
    E,
    A,
    FnErr: Into<E>,
    F: Fn(&K, A) -> Result<V, FnErr>,
    S: TryCacheStore<Key = K, Value = V, Error = E>,
> TryGenCacheStoreWrapper<K, V, E, A, FnErr, S, F> {
    pub fn new(store: S, try_generator: F) -> (r: Self)
        ensures
            r.store == store,
            r.try_generator == try_generator,
            forall|k: K, a: A| #[trigger] r.can_generate(k, a) == call_requires(try_generator, (&k, a)),
            forall|k: K, a: A, v: V| #[trigger] r.generates(k, a, v) == call_ensures(
                try_generator,
                (&k, a),
                Ok::<V, FnErr>(v),
            ),
    {
        TryGenCacheStoreWrapper { store, try_generator, phantom: PhantomData }
    }
}

impl<
    K,
    V: Clone,
    E,
    A,
    FnErr: Into<E>,
    F: Fn(&K, A) -> Result<V, FnErr>,
    S: TryCacheStore<Key = K, Value = V, Error = E>,
> TryCacheStore for TryGenCacheStoreWrapper<K, V, E, A, FnErr, S, F> {
    type Key = K;
    type Value = V;
    type Error = E;

    open spec fn entries(&self) -> Map<K, V> {
        self.store.entries()
    }

    open spec fn plain() -> bool {
        S::plain()
    }

    open spec fn infallible() -> bool {
        S::infallible()
    }

    open spec fn get_fails(&self, key: K, e: E) -> bool {
        self.store.get_fails(key, e)
    }

    open spec fn set_fails(&self, key: K, value: V, e: E) -> bool {
        self.store.set_fails(key, value, e)
    }

    open spec fn exists_fails(&self, key: K, e: E) -> bool {
        self.store.exists_fails(key, e)
    }

    fn try_get(&self, key: &K) -> (r: Result<Option<V>, E>) {
        self.store.try_get(key)
    }

    fn try_set(&mut self, key: &K, value: &V) -> (r: Result<(), E>) {
        self.store.try_set(key, value)
    }

    fn try_exists(&self, key: &K) -> (r: Result<bool, E>) {
        self.store.try_exists(key)
    }
}

impl<
    K,
    V: Clone,
    E,
    A,
    FnErr: Into<E>,
    F: Fn(&K, A) -> Result<V, FnErr>,
    S: TryCacheStore<Key = K, Value = V, Error = E>,
> TryGenCacheStore for TryGenCacheStoreWrapper<K, V, E, A, FnErr, S, F> {
    type Args = A;

    open spec fn can_generate(&self, key: K, args: A) -> bool {
        call_requires(self.try_generator, (&key, args))
    }

    open spec fn generates(&self, key: K, args: A, v: V) -> bool {
        call_ensures(self.try_generator, (&key, args), Ok::<V, FnErr>(v))
    }

    open spec fn generation(&self, key: K, args: A, r: Result<V, E>) -> bool {
        exists|raw: Result<V, FnErr>|
            #[trigger] call_ensures(self.try_generator, (&key, args), raw) && match raw {
                Ok(v) => r == Ok::<V, E>(v),
                Err(fe) => r is Err && call_ensures(<FnErr as Into<E>>::into, (fe,), r->Err_0),
            }
    }

    fn try_gen(&self, key: &K, args: A) -> (r: Result<V, E>) {
        let raw = (self.try_generator)(key, args);
        let r = match raw {
            Ok(v) => Ok(v),
            Err(e) => Err(e.into()),
        };
        assert(call_ensures(self.try_generator, (key, args), raw));
        assert(self.generation(*key, args, r));
        r
    }

    fn try_get_or_gen(&self, key: &K, args: A) -> (r: Result<V, E>) {
        match self.store.try_get(key) {
            Ok(Some(v)) => Ok(v),
            Ok(None) => self.try_gen(key, args),
            Err(e) => Err(e),
        }
    }

    fn try_get_or_new(&mut self, key: &K, args: A) -> (r: Result<V, E>) {
        let value = match self.try_get_or_gen(key, args) {
            Ok(v) => v,
            Err(e) => {
                return Err(e);
            },
        };
        proof {
            assert forall|k: K, a: A, g: Result<V, E>| #[trigger] self.generation(k, a, g)
                == old(self).generation(k, a, g) by {
                assert(self.try_generator == old(self).try_generator);
            }
        }
        match self.store.try_set(key, &value) {
            Ok(()) => Ok(value),
            Err(e) => {
                let res = Err(e);
                proof {
                    assert(old(self).set_fails(*key, value, res->Err_0));
                }
                res
            },
        }
    }

    fn try_gen_new(&mut self, key: &K, args: A) -> (r: Result<V, E>) {
        let g = self.try_gen(key, args);
        let value = match g {
            Ok(v) => v,
            Err(e) => {
                let res = Err(e);
                proof {
                    assert(res == g);
                    assert(old(self).generation(*key, args, res));
                }
                return res;
            },
        };
        proof {
            assert forall|k: K, a: A, g: Result<V, E>| #[trigger] self.generation(k, a, g)
                == old(self).generation(k, a, g) by {
                assert(self.try_generator == old(self).try_generator);
            }
        }
        match self.store.try_set(key, &value) {
            Ok(()) => Ok(value),
            Err(e) => {
                let res = Err(e);
                proof {
                    assert(old(self).set_fails(*key, value, res->Err_0));
                }
                res
            },
        }
    }
}

/// Every [`GenCacheStore`] is a [`TryGenCacheStore`] that never fails.
impl<T: GenCacheStore> TryGenCacheStore for T {
    type Args = <T as GenCacheStore>::Args;

    open spec fn can_generate(&self, key: <T as CacheStore>::Key, args: Self::Args) -> bool {
        GenCacheStore::can_generate(self, key, args)
    }

    open spec fn generates(
        &self,
        key: <T as CacheStore>::Key,
        args: Self::Args,
        v: <T as CacheStore>::Value,
    ) -> bool {
        GenCacheStore::generates(self, key, args, v)
    }

    open spec fn generation(
        &self,
        key: <T as CacheStore>::Key,
        args: Self::Args,
        r: Result<<T as CacheStore>::Value, std::convert::Infallible>,
    ) -> bool {
        r is Ok && GenCacheStore::generates(self, key, args, r->Ok_0)
    }

    fn try_gen(&self, key: &<T as CacheStore>::Key, args: Self::Args) -> (r: Result<
        <T as CacheStore>::Value,
        std::convert::Infallible,
    >) {
        Ok(self.gen(key, args))
    }

    fn try_get_or_gen(&self, key: &<T as CacheStore>::Key, args: Self::Args) -> (r: Result<
        <T as CacheStore>::Value,
        std::convert::Infallible,
    >) {
        Ok(self.get_or_gen(key, args))
    }

    fn try_get_or_new(&mut self, key: &<T as CacheStore>::Key, args: Self::Args) -> (r: Result<
        <T as CacheStore>::Value,
        std::convert::Infallible,
    >) {
        Ok(self.get_or_new(key, args))
    }

    fn try_gen_new(&mut self, key: &<T as CacheStore>::Key, args: Self::Args) -> (r: Result<
        <T as CacheStore>::Value,
        std::convert::Infallible,
    >) {
        Ok(self.gen_new(key, args))
    }
}

} // verus!
