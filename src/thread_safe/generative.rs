//! Thread-safe stores with a generator.
//!
//! [`ThreadSafeTryGenCacheStore::ts_try_get_or_new`] holds one exclusive lock on the key
//! from the look-up to the write: callers that race on a missing key run the generator
//! once between them, the first to take the lock, and the others read what it stored.
//! Hits on that key wait while the generator runs.

use std::marker::PhantomData;
use vstd::prelude::*;

use super::ThreadSafeTryCacheStore;

verus! {

/// Fallible thread-safe store with a fallible generator. An operation of several steps
/// stops at the first failure and undoes nothing: a lock, read, generator or write error
/// is returned converted, and after a generator error nothing is written.
pub trait ThreadSafeTryGenCacheStore: ThreadSafeTryCacheStore {
    type Args;
    type Error;

    /// The generator accepts `key` and `args`.
    spec fn can_generate(&self, key: Self::Key, args: Self::Args) -> bool;

    /// `v` is a value that the generator may return, with success, for `key` and `args`.
    spec fn generates(&self, key: Self::Key, args: Self::Args, v: Self::Value) -> bool;

    /// `r` is what the generator may give for `key` and `args`, its error converted.
    spec fn generation(&self, key: Self::Key, args: Self::Args, r: Result<Self::Value, <Self as ThreadSafeTryGenCacheStore>::Error>) -> bool;

    /// `out` is the store's error `e` converted.
    spec fn converts(e: <Self as ThreadSafeTryCacheStore>::Error, out: <Self as ThreadSafeTryGenCacheStore>::Error) -> bool;

    /// The generator cannot fail.
    spec fn generator_infallible() -> bool;

    /// Computes a value without looking at the store or writing to it.
    fn ts_try_gen(&self, key: &Self::Key, args: Self::Args) -> (r: Result<Self::Value, <Self as ThreadSafeTryGenCacheStore>::Error>)
        requires
            self.can_generate(*key, args),
        ensures
            self.generation(*key, args, r),
            r is Ok ==> self.generates(*key, args, r->Ok_0),
            Self::generator_infallible() ==> r is Ok,
    ;

    /// The stored value, read under a shared lock, or else a freshly computed one that
    /// is not stored. A lock or read error is returned converted.
    fn ts_try_get_or_gen(&self, key: &Self::Key, args: Self::Args) -> (r: Result<Self::Value, <Self as ThreadSafeTryGenCacheStore>::Error>)
        requires
            self.can_generate(*key, args),
        ensures
            (r is Err && exists|e: <Self as ThreadSafeTryCacheStore>::Error| !Self::would_block(e) && #[trigger] Self::converts(e, r->Err_0)) || exists|h: Self::Lock, read: Result<Option<Self::Value>, <Self as ThreadSafeTryCacheStore>::Error>|
                #[trigger] self.reads(h, read) && cloned(*key, Self::lock_key(h))
                    && !Self::lock_is_exclusive(h) && match read {
                    Err(e) => r is Err && Self::converts(e, r->Err_0),
                    Ok(Some(v)) => r == Ok::<Self::Value, <Self as ThreadSafeTryGenCacheStore>::Error>(v),
                    Ok(None) => self.generation(*key, args, r),
                },
    ;

    /// Under the exclusive lock `handle` holds: the value read, or where there is none a
    /// freshly computed one; either is then written back under the handle. A read or
    /// write error is returned converted; after a read or generator error nothing is
    /// written.
    fn ts_try_get_or_new_held(&self, handle: &mut Self::Lock, key: &Self::Key, args: Self::Args) -> (r: Result<Self::Value, <Self as ThreadSafeTryGenCacheStore>::Error>)
        requires
            Self::lock_is_exclusive(*old(handle)),
            self.can_generate(*key, args),
        ensures
            Self::lock_key(*final(handle)) == Self::lock_key(*old(handle)),
            Self::lock_is_exclusive(*final(handle)),
            exists|read: Result<Option<Self::Value>, <Self as ThreadSafeTryCacheStore>::Error>|
                #[trigger] self.reads(*old(handle), read) && match read {
                    Err(e) => r is Err && Self::converts(e, r->Err_0) && *final(handle) == *old(handle),
                    Ok(Some(v)) => exists|w: Result<(), <Self as ThreadSafeTryCacheStore>::Error>|
                        #[trigger] self.writes(*old(handle), *final(handle), v, w) && match w {
                            Ok(_) => r == Ok::<Self::Value, <Self as ThreadSafeTryGenCacheStore>::Error>(v),
                            Err(e) => r is Err && Self::converts(e, r->Err_0),
                        },
                    Ok(None) => exists|g: Result<Self::Value, <Self as ThreadSafeTryGenCacheStore>::Error>|
                        #[trigger] self.generation(*key, args, g) && match g {
                            Err(ge) => r == Err::<Self::Value, <Self as ThreadSafeTryGenCacheStore>::Error>(ge) && *final(handle) == *old(handle),
                            Ok(v) => exists|w: Result<(), <Self as ThreadSafeTryCacheStore>::Error>|
                                #[trigger] self.writes(*old(handle), *final(handle), v, w) && match w {
                                    Ok(_) => r == Ok::<Self::Value, <Self as ThreadSafeTryGenCacheStore>::Error>(v),
                                    Err(e) => r is Err && Self::converts(e, r->Err_0),
                                },
                        },
                },
    ;

    /// Under one exclusive lock on `key`, taken waiting: what
    /// [`Self::ts_try_get_or_new_held`] gives under it, or the lock's error converted.
    fn ts_try_get_or_new(&self, key: &Self::Key, args: Self::Args) -> (r: Result<Self::Value, <Self as ThreadSafeTryGenCacheStore>::Error>)
        requires
            self.can_generate(*key, args),
        ensures
            (r is Err && exists|e: <Self as ThreadSafeTryCacheStore>::Error| !Self::would_block(e) && #[trigger] Self::converts(e, r->Err_0)) || exists|before: Self::Lock, after: Self::Lock|
                #![trigger Self::lock_key(before), Self::lock_key(after)]
                cloned(*key, Self::lock_key(before)) && Self::lock_is_exclusive(before)
                    && exists|read: Result<Option<Self::Value>, <Self as ThreadSafeTryCacheStore>::Error>|
                        #[trigger] self.reads(before, read) && match read {
                            Err(e) => r is Err && Self::converts(e, r->Err_0) && after == before,
                            Ok(Some(v)) => exists|w: Result<(), <Self as ThreadSafeTryCacheStore>::Error>|
                                #[trigger] self.writes(before, after, v, w) && match w {
                                    Ok(_) => r == Ok::<Self::Value, <Self as ThreadSafeTryGenCacheStore>::Error>(v),
                                    Err(e) => r is Err && Self::converts(e, r->Err_0),
                                },
                            Ok(None) => exists|g: Result<Self::Value, <Self as ThreadSafeTryGenCacheStore>::Error>|
                                #[trigger] self.generation(*key, args, g) && match g {
                                    Err(ge) => r == Err::<Self::Value, <Self as ThreadSafeTryGenCacheStore>::Error>(ge) && after == before,
                                    Ok(v) => exists|w: Result<(), <Self as ThreadSafeTryCacheStore>::Error>|
                                        #[trigger] self.writes(before, after, v, w) && match w {
                                            Ok(_) => r == Ok::<Self::Value, <Self as ThreadSafeTryGenCacheStore>::Error>(v),
                                            Err(e) => r is Err && Self::converts(e, r->Err_0),
                                        },
                                },
                        },
    ;

    /// Computes a value and stores it under an exclusive lock on `key`, replacing what
    /// was stored. A generator error is returned converted and nothing is written; then
    /// a lock or write error is returned converted.
    fn ts_try_gen_new(&self, key: &Self::Key, args: Self::Args) -> (r: Result<Self::Value, <Self as ThreadSafeTryGenCacheStore>::Error>)
        requires
            self.can_generate(*key, args),
        ensures
            exists|g: Result<Self::Value, <Self as ThreadSafeTryGenCacheStore>::Error>| #[trigger] self.generation(*key, args, g) && match g {
                Err(ge) => r == Err::<Self::Value, <Self as ThreadSafeTryGenCacheStore>::Error>(ge),
                Ok(v) => (r is Err && exists|e: <Self as ThreadSafeTryCacheStore>::Error| !Self::would_block(e) && #[trigger] Self::converts(e, r->Err_0)) || exists|before: Self::Lock, after: Self::Lock, w: Result<(), <Self as ThreadSafeTryCacheStore>::Error>|
                    #[trigger] self.writes(before, after, v, w) && cloned(*key, Self::lock_key(before))
                        && Self::lock_is_exclusive(before) && match w {
                        Ok(_) => r == Ok::<Self::Value, <Self as ThreadSafeTryGenCacheStore>::Error>(v),
                        Err(e) => r is Err && Self::converts(e, r->Err_0),
                    },
            },
    ;
}

/// A [`ThreadSafeTryCacheStore`] together with a fallible generator; the errors of both
/// are converted into `E`.
#[verifier::reject_recursive_types(K)]
#[verifier::reject_recursive_types(V)]
#[verifier::reject_recursive_types(E)]
#[verifier::reject_recursive_types(A)]
#[verifier::reject_recursive_types(StErr)]
#[verifier::reject_recursive_types(FnErr)]
pub struct ThreadSafeGenTryCacheStoreWrapper<
    K,
    V: Clone,
    E,
    A,
    StErr: Into<E>,
    FnErr: Into<E>,
    S: ThreadSafeTryCacheStore<Key = K, Value = V, Error = StErr>,
    F: Fn(&K, A) -> Result<V, FnErr>,
> {
    pub store: S,
    pub generator: F,
    pub phantom: PhantomData<(K, V, A, E, StErr, FnErr)>,
}

impl<
    K: Clone,
    V: Clone,
    E,
    A,
    StErr: Into<E>,
    FnErr: Into<E>,
    S: ThreadSafeTryCacheStore<Key = K, Value = V, Error = StErr>,
    F: Fn(&K, A) -> Result<V, FnErr>,
> ThreadSafeGenTryCacheStoreWrapper<K, V, E, A, StErr, FnErr, S, F> {
    pub fn new(store: S, generator: F) -> (r: Self)
        ensures
            r.store == store,
            r.generator == generator,
            forall|k: K, a: A| #[trigger] r.can_generate(k, a) == call_requires(generator, (&k, a)),
            forall|k: K, a: A, v: V| #[trigger] r.generates(k, a, v) == call_ensures(
                generator,
                (&k, a),
                Ok::<V, FnErr>(v),
            ),
    {
        ThreadSafeGenTryCacheStoreWrapper { store, generator, phantom: PhantomData }
    }
}

impl<
    K: Clone,
    V: Clone,
    E,
    A,
    StErr: Into<E>,
    FnErr: Into<E>,
    S: ThreadSafeTryCacheStore<Key = K, Value = V, Error = StErr>,
    F: Fn(&K, A) -> Result<V, FnErr>,
> ThreadSafeGenTryCacheStoreWrapper<K, V, E, A, StErr, FnErr, S, F> {
    /// The wrapper's handles, errors, reads and writes are the wrapped store's.
    proof fn lemma_delegated(&self)
        ensures
            forall|l: S::Lock| #[trigger] Self::lock_key(l) == S::lock_key(l),
            forall|l: S::Lock| #[trigger] Self::lock_is_exclusive(l) == S::lock_is_exclusive(l),
            forall|e: StErr| #[trigger] Self::would_block(e) == S::would_block(e),
            forall|l: S::Lock, r: Result<Option<V>, StErr>| #[trigger] self.reads(l, r)
                == self.store.reads(l, r),
            forall|b: S::Lock, a: S::Lock, v: V, r: Result<(), StErr>| #[trigger] self.writes(
                b,
                a,
                v,
                r,
            ) == self.store.writes(b, a, v, r),
            forall|l: S::Lock, r: Result<bool, StErr>| #[trigger] self.checks(l, r)
                == self.store.checks(l, r),
    {
    }
}

impl<
    K: Clone,
    V: Clone,
    E,
    A,
    StErr: Into<E>,
    FnErr: Into<E>,
    S: ThreadSafeTryCacheStore<Key = K, Value = V, Error = StErr>,
    F: Fn(&K, A) -> Result<V, FnErr>,
> ThreadSafeTryCacheStore for ThreadSafeGenTryCacheStoreWrapper<K, V, E, A, StErr, FnErr, S, F> {
    type Key = K;
    type Value = V;
    type Lock = S::Lock;
    type Error = StErr;

    open spec fn lock_key(lock: S::Lock) -> K {
        S::lock_key(lock)
    }

    open spec fn lock_is_exclusive(lock: S::Lock) -> bool {
        S::lock_is_exclusive(lock)
    }

    open spec fn would_block(e: StErr) -> bool {
        S::would_block(e)
    }

    open spec fn reads(&self, lock: S::Lock, r: Result<Option<V>, StErr>) -> bool {
        self.store.reads(lock, r)
    }

    open spec fn writes(&self, before: S::Lock, after: S::Lock, value: V, r: Result<(), StErr>) -> bool {
        self.store.writes(before, after, value, r)
    }

    open spec fn checks(&self, lock: S::Lock, r: Result<bool, StErr>) -> bool {
        self.store.checks(lock, r)
    }

    fn ts_try_get(&self, handle: &S::Lock) -> (r: Result<Option<V>, StErr>) {
        proof {
            self.lemma_delegated();
        }
        self.store.ts_try_get(handle)
    }

    fn ts_try_set(&self, handle: &mut S::Lock, value: &V) -> (r: Result<(), StErr>) {
        proof {
            self.lemma_delegated();
        }
        self.store.ts_try_set(handle, value)
    }

    fn ts_try_exists(&self, handle: &S::Lock) -> (r: Result<bool, StErr>) {
        proof {
            self.lemma_delegated();
        }
        self.store.ts_try_exists(handle)
    }

    fn ts_try_xlock(&self, key: &K) -> (r: Result<S::Lock, StErr>) {
        proof {
            self.lemma_delegated();
        }
        self.store.ts_try_xlock(key)
    }

    fn ts_try_slock(&self, key: &K) -> (r: Result<S::Lock, StErr>) {
        proof {
            self.lemma_delegated();
        }
        self.store.ts_try_slock(key)
    }

    fn ts_try_xlock_nblock(&self, key: &K) -> (r: Result<S::Lock, StErr>) {
        proof {
            self.lemma_delegated();
        }
        self.store.ts_try_xlock_nblock(key)
    }

    fn ts_try_slock_nblock(&self, key: &K) -> (r: Result<S::Lock, StErr>) {
        proof {
            self.lemma_delegated();
        }
        self.store.ts_try_slock_nblock(key)
    }
}

impl<
    K: Clone,
    V: Clone,
    E,
    A,
    StErr: Into<E>,
    FnErr: Into<E>,
    S: ThreadSafeTryCacheStore<Key = K, Value = V, Error = StErr>,
    F: Fn(&K, A) -> Result<V, FnErr>,
> ThreadSafeTryGenCacheStore for ThreadSafeGenTryCacheStoreWrapper<K, V, E, A, StErr, FnErr, S, F> {
    type Args = A;
    type Error = E;

    open spec fn can_generate(&self, key: K, args: A) -> bool {
        call_requires(self.generator, (&key, args))
    }

    open spec fn generates(&self, key: K, args: A, v: V) -> bool {
        call_ensures(self.generator, (&key, args), Ok::<V, FnErr>(v))
    }

    open spec fn generation(&self, key: K, args: A, r: Result<V, E>) -> bool {
        exists|raw: Result<V, FnErr>|
            #[trigger] call_ensures(self.generator, (&key, args), raw) && match raw {
                Ok(v) => r == Ok::<V, E>(v),
                Err(fe) => r is Err && call_ensures(<FnErr as Into<E>>::into, (fe,), r->Err_0),
            }
    }

    open spec fn converts(e: StErr, out: E) -> bool {
        call_ensures(<StErr as Into<E>>::into, (e,), out)
    }

    open spec fn generator_infallible() -> bool {
        false
    }

    fn ts_try_gen(&self, key: &K, args: A) -> (r: Result<V, E>) {
        let raw = (self.generator)(key, args);
        let r = match raw {
            Ok(v) => Ok(v),
            Err(e) => Err(e.into()),
        };
        proof {
            assert(call_ensures(self.generator, (key, args), raw));
        }
        r
    }

    fn ts_try_get_or_gen(&self, key: &K, args: A) -> (r: Result<V, E>) {
        proof {
            self.lemma_delegated();
        }
        let handle = match self.store.ts_try_slock(key) {
            Ok(h) => h,
            Err(e) => {
                let ghost err = e;
                let res = Err(e.into());
                proof {
                    assert(Self::converts(err, res->Err_0));
                    assert(!Self::would_block(err));
                }
                return res;
            },
        };
        let read = self.store.ts_try_get(&handle);
        proof {
            assert(self.reads(handle, read));
            assert(Self::lock_key(handle) == S::lock_key(handle));
            assert(Self::lock_is_exclusive(handle) == S::lock_is_exclusive(handle));
        }
        match read {
            Ok(Some(v)) => Ok(v),
            Ok(None) => self.ts_try_gen(key, args),
            Err(e) => {
                let ghost err = e;
                let res = Err(e.into());
                proof {
                    assert(Self::converts(err, res->Err_0));
                }
                res
            },
        }
    }

    fn ts_try_get_or_new_held(&self, handle: &mut S::Lock, key: &K, args: A) -> (r: Result<
        V,
        E,
    >) {
        proof {
            self.lemma_delegated();
        }
        let ghost before = *handle;
        let read = self.store.ts_try_get(handle);
        proof {
            assert(self.reads(before, read));
        }
        let value = match read {
            Ok(Some(v)) => v,
            Ok(None) => {
                let g = self.ts_try_gen(key, args);
                proof {
                    assert(self.generation(*key, args, g));
                }
                match g {
                    Ok(v) => v,
                    Err(ge) => {
                        return Err(ge);
                    },
                }
            },
            Err(e) => {
                let ghost err = e;
                let res = Err(e.into());
                proof {
                    assert(Self::converts(err, res->Err_0));
                }
                return res;
            },
        };
        let written = self.store.ts_try_set(handle, &value);
        proof {
            assert(self.writes(before, *handle, value, written));
        }
        match written {
            Ok(u) => Ok(value),
            Err(e) => {
                let ghost err = e;
                let res = Err(e.into());
                proof {
                    assert(Self::converts(err, res->Err_0));
                }
                res
            },
        }
    }

    fn ts_try_get_or_new(&self, key: &K, args: A) -> (r: Result<V, E>) {
        proof {
            self.lemma_delegated();
        }
        let mut handle = match self.store.ts_try_xlock(key) {
            Ok(h) => h,
            Err(e) => {
                let ghost err = e;
                let res = Err(e.into());
                proof {
                    assert(Self::converts(err, res->Err_0));
                    assert(!Self::would_block(err));
                }
                return res;
            },
        };
        let ghost before = handle;
        proof {
            assert(Self::lock_key(before) == S::lock_key(before));
            assert(Self::lock_is_exclusive(before) == S::lock_is_exclusive(before));
        }
        let r = self.ts_try_get_or_new_held(&mut handle, key, args);
        proof {
            assert(Self::lock_key(handle) == Self::lock_key(before));
        }
        r
    }

    fn ts_try_gen_new(&self, key: &K, args: A) -> (r: Result<V, E>) {
        proof {
            self.lemma_delegated();
        }
        let g = self.ts_try_gen(key, args);
        proof {
            assert(self.generation(*key, args, g));
        }
        let value = match g {
            Ok(v) => v,
            Err(ge) => {
                return Err(ge);
            },
        };
        let mut handle = match self.store.ts_try_xlock(key) {
            Ok(h) => h,
            Err(e) => {
                let ghost err = e;
                let res = Err(e.into());
                proof {
                    assert(Self::converts(err, res->Err_0));
                    assert(!Self::would_block(err));
                }
                return res;
            },
        };
        let ghost before = handle;
        let written = self.store.ts_try_set(&mut handle, &value);
        proof {
            assert(self.writes(before, handle, value, written));
            assert(Self::lock_key(before) == S::lock_key(before));
            assert(Self::lock_is_exclusive(before) == S::lock_is_exclusive(before));
        }
        match written {
            Ok(u) => Ok(value),
            Err(e) => {
                let ghost err = e;
                let res = Err(e.into());
                proof {
                    assert(Self::converts(err, res->Err_0));
                }
                res
            },
        }
    }
}

/// A [`ThreadSafeTryCacheStore`] together with a generator that cannot fail: only the
/// store's errors remain.
#[verifier::reject_recursive_types(K)]
#[verifier::reject_recursive_types(V)]
#[verifier::reject_recursive_types(A)]
pub struct ThreadSafeGenCacheStoreWrapper<
    K,
    V: Clone,
    A,
    S: ThreadSafeTryCacheStore<Key = K, Value = V>,
    F: Fn(&K, A) -> V,
> {
    pub store: S,
    pub generator: F,
    pub phantom: PhantomData<(K, V, A)>,
}

impl<K: Clone, V: Clone, A, S: ThreadSafeTryCacheStore<Key = K, Value = V>, F: Fn(&K, A) -> V> ThreadSafeGenCacheStoreWrapper<K, V, A, S, F> {
    pub fn new(store: S, generator: F) -> (r: Self)
        ensures
            r.store == store,
            r.generator == generator,
            forall|k: K, a: A| #[trigger] r.can_generate(k, a) == call_requires(generator, (&k, a)),
            forall|k: K, a: A, v: V| #[trigger] r.generates(k, a, v) == call_ensures(generator, (&k, a), v),
    {
        ThreadSafeGenCacheStoreWrapper { store, generator, phantom: PhantomData }
    }
}

impl<K: Clone, V: Clone, A, S: ThreadSafeTryCacheStore<Key = K, Value = V>, F: Fn(&K, A) -> V> ThreadSafeGenCacheStoreWrapper<K, V, A, S, F> {
    /// The wrapper's handles, errors, reads and writes are the wrapped store's.
    proof fn lemma_delegated(&self)
        ensures
            forall|l: S::Lock| #[trigger] Self::lock_key(l) == S::lock_key(l),
            forall|l: S::Lock| #[trigger] Self::lock_is_exclusive(l) == S::lock_is_exclusive(l),
            forall|e: S::Error| #[trigger] Self::would_block(e) == S::would_block(e),
            forall|l: S::Lock, r: Result<Option<V>, S::Error>| #[trigger] self.reads(l, r)
                == self.store.reads(l, r),
            forall|b: S::Lock, a: S::Lock, v: V, r: Result<(), S::Error>| #[trigger] self.writes(
                b,
                a,
                v,
                r,
            ) == self.store.writes(b, a, v, r),
            forall|l: S::Lock, r: Result<bool, S::Error>| #[trigger] self.checks(l, r)
                == self.store.checks(l, r),
    {
    }
}

impl<K: Clone, V: Clone, A, S: ThreadSafeTryCacheStore<Key = K, Value = V>, F: Fn(&K, A) -> V> ThreadSafeTryCacheStore for ThreadSafeGenCacheStoreWrapper<K, V, A, S, F> {
    type Key = K;
    type Value = V;
    type Lock = S::Lock;
    type Error = S::Error;

    open spec fn lock_key(lock: S::Lock) -> K {
        S::lock_key(lock)
    }

    open spec fn lock_is_exclusive(lock: S::Lock) -> bool {
        S::lock_is_exclusive(lock)
    }

    open spec fn would_block(e: S::Error) -> bool {
        S::would_block(e)
    }

    open spec fn reads(&self, lock: S::Lock, r: Result<Option<V>, S::Error>) -> bool {
        self.store.reads(lock, r)
    }

    open spec fn writes(&self, before: S::Lock, after: S::Lock, value: V, r: Result<(), S::Error>) -> bool {
        self.store.writes(before, after, value, r)
    }

    open spec fn checks(&self, lock: S::Lock, r: Result<bool, S::Error>) -> bool {
        self.store.checks(lock, r)
    }

    fn ts_try_get(&self, handle: &S::Lock) -> (r: Result<Option<V>, S::Error>) {
        proof {
            self.lemma_delegated();
        }
        self.store.ts_try_get(handle)
    }

    fn ts_try_set(&self, handle: &mut S::Lock, value: &V) -> (r: Result<(), S::Error>) {
        proof {
            self.lemma_delegated();
        }
        self.store.ts_try_set(handle, value)
    }

    fn ts_try_exists(&self, handle: &S::Lock) -> (r: Result<bool, S::Error>) {
        proof {
            self.lemma_delegated();
        }
        self.store.ts_try_exists(handle)
    }

    fn ts_try_xlock(&self, key: &K) -> (r: Result<S::Lock, S::Error>) {
        proof {
            self.lemma_delegated();
        }
        self.store.ts_try_xlock(key)
    }

    fn ts_try_slock(&self, key: &K) -> (r: Result<S::Lock, S::Error>) {
        proof {
            self.lemma_delegated();
        }
        self.store.ts_try_slock(key)
    }

    fn ts_try_xlock_nblock(&self, key: &K) -> (r: Result<S::Lock, S::Error>) {
        proof {
            self.lemma_delegated();
        }
        self.store.ts_try_xlock_nblock(key)
    }

    fn ts_try_slock_nblock(&self, key: &K) -> (r: Result<S::Lock, S::Error>) {
        proof {
            self.lemma_delegated();
        }
        self.store.ts_try_slock_nblock(key)
    }
}

impl<K: Clone, V: Clone, A, S: ThreadSafeTryCacheStore<Key = K, Value = V>, F: Fn(&K, A) -> V> ThreadSafeTryGenCacheStore for ThreadSafeGenCacheStoreWrapper<K, V, A, S, F> {
    type Args = A;
    type Error = S::Error;

    open spec fn can_generate(&self, key: K, args: A) -> bool {
        call_requires(self.generator, (&key, args))
    }

    open spec fn generates(&self, key: K, args: A, v: V) -> bool {
        call_ensures(self.generator, (&key, args), v)
    }

    open spec fn generation(&self, key: K, args: A, r: Result<V, S::Error>) -> bool {
        r is Ok && call_ensures(self.generator, (&key, args), r->Ok_0)
    }

    open spec fn converts(e: S::Error, out: S::Error) -> bool {
        out == e
    }

    open spec fn generator_infallible() -> bool {
        true
    }

    fn ts_try_gen(&self, key: &K, args: A) -> (r: Result<V, S::Error>) {
        proof {
            assert(Self::generator_infallible());
        }
        Ok((self.generator)(key, args))
    }

    fn ts_try_get_or_gen(&self, key: &K, args: A) -> (r: Result<V, S::Error>) {
        proof {
            self.lemma_delegated();
        }
        let handle = match self.store.ts_try_slock(key) {
            Ok(h) => h,
            Err(e) => {
                let ghost err = e;
                let res = Err(e);
                proof {
                    assert(Self::converts(err, res->Err_0));
                    assert(!Self::would_block(err));
                }
                return res;
            },
        };
        let read = self.store.ts_try_get(&handle);
        proof {
            assert(self.reads(handle, read));
            assert(Self::lock_key(handle) == S::lock_key(handle));
            assert(Self::lock_is_exclusive(handle) == S::lock_is_exclusive(handle));
        }
        match read {
            Ok(Some(v)) => Ok(v),
            Ok(None) => self.ts_try_gen(key, args),
            Err(e) => {
                let ghost err = e;
                let res = Err(e);
                proof {
                    assert(Self::converts(err, res->Err_0));
                }
                res
            },
        }
    }

    fn ts_try_get_or_new_held(&self, handle: &mut S::Lock, key: &K, args: A) -> (r: Result<
        V,
        S::Error,
    >) {
        proof {
            self.lemma_delegated();
        }
        let ghost before = *handle;
        let read = self.store.ts_try_get(handle);
        proof {
            assert(self.reads(before, read));
        }
        let value = match read {
            Ok(Some(v)) => v,
            Ok(None) => {
                let g = self.ts_try_gen(key, args);
                proof {
                    assert(self.generation(*key, args, g));
                }
                match g {
                    Ok(v) => v,
                    Err(ge) => {
                        return Err(ge);
                    },
                }
            },
            Err(e) => {
                let ghost err = e;
                let res = Err(e);
                proof {
                    assert(Self::converts(err, res->Err_0));
                }
                return res;
            },
        };
        let written = self.store.ts_try_set(handle, &value);
        proof {
            assert(self.writes(before, *handle, value, written));
        }
        match written {
            Ok(u) => Ok(value),
            Err(e) => {
                let ghost err = e;
                let res = Err(e);
                proof {
                    assert(Self::converts(err, res->Err_0));
                }
                res
            },
        }
    }

    fn ts_try_get_or_new(&self, key: &K, args: A) -> (r: Result<V, S::Error>) {
        proof {
            self.lemma_delegated();
        }
        let mut handle = match self.store.ts_try_xlock(key) {
            Ok(h) => h,
            Err(e) => {
                let ghost err = e;
                let res = Err(e);
                proof {
                    assert(Self::converts(err, res->Err_0));
                    assert(!Self::would_block(err));
                }
                return res;
            },
        };
        let ghost before = handle;
        proof {
            assert(Self::lock_key(before) == S::lock_key(before));
            assert(Self::lock_is_exclusive(before) == S::lock_is_exclusive(before));
        }
        let r = self.ts_try_get_or_new_held(&mut handle, key, args);
        proof {
            assert(Self::lock_key(handle) == Self::lock_key(before));
        }
        r
    }

    fn ts_try_gen_new(&self, key: &K, args: A) -> (r: Result<V, S::Error>) {
        proof {
            self.lemma_delegated();
        }
        let g = self.ts_try_gen(key, args);
        proof {
            assert(self.generation(*key, args, g));
        }
        let value = match g {
            Ok(v) => v,
            Err(ge) => {
                return Err(ge);
            },
        };
        let mut handle = match self.store.ts_try_xlock(key) {
            Ok(h) => h,
            Err(e) => {
                let ghost err = e;
                let res = Err(e);
                proof {
                    assert(Self::converts(err, res->Err_0));
                    assert(!Self::would_block(err));
                }
                return res;
            },
        };
        let ghost before = handle;
        let written = self.store.ts_try_set(&mut handle, &value);
        proof {
            assert(self.writes(before, handle, value, written));
            assert(Self::lock_key(before) == S::lock_key(before));
            assert(Self::lock_is_exclusive(before) == S::lock_is_exclusive(before));
        }
        match written {
            Ok(u) => Ok(value),
            Err(e) => {
                let ghost err = e;
                let res = Err(e);
                proof {
                    assert(Self::converts(err, res->Err_0));
                }
                res
            },
        }
    }
}

} // verus!
