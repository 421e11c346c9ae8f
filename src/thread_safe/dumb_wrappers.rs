//! Errors of the locks, and a thread-safe wrapper that puts a whole store behind one
//! read-write lock.

use std::marker::PhantomData;
use std::sync::RwLock;
use vstd::prelude::*;

use super::key_locks::{leak_lock, take, Blocking, LockMode, RwLockAnyGuardKey};
use super::ThreadSafeTryCacheStore;
use crate::{copy_of, lookup, stored_under, TryCacheStore};

verus! {

/// Why a lock could not be taken.
#[derive(Clone, Copy, Debug, PartialEq, Eq, Structural)]
pub enum EmptyDumbError {
    /// A thread panicked while it held the lock.
    Poisoned,
    /// The lock is held, and the caller asked not to wait.
    WouldBlock,
}

/// A [`TryCacheStore`] behind one read-write lock: any number of readers, or one writer,
/// whichever keys they are for. A handle holds the lock together with the key it was
/// taken for. Like the per-key locks, the store's lock is allocated on its own and never
/// freed, so that handles may outlive the borrow of the wrapper.
#[verifier::reject_recursive_types(K)]
#[verifier::reject_recursive_types(V)]
#[verifier::reject_recursive_types(E)]
#[verifier::reject_recursive_types(S)]
pub struct DumbTryThreadSafeWrapper<K, V, E, S: TryCacheStore<Key = K, Value = V, Error = E> + 'static> {
    store: &'static RwLock<S>,
    phantom: PhantomData<(K, V, E)>,
}

impl<K, V: Clone, E, S: TryCacheStore<Key = K, Value = V, Error = E> + 'static> DumbTryThreadSafeWrapper<K, V, E, S> {
    /// Puts `store` behind a read-write lock.
    pub fn new(store: S) -> Self {
        DumbTryThreadSafeWrapper {
            store: leak_lock(Box::new(RwLock::new(store))),
            phantom: PhantomData,
        }
    }
}

impl<K: Clone, V: Clone, E: From<EmptyDumbError>, S: TryCacheStore<Key = K, Value = V, Error = E> + 'static> DumbTryThreadSafeWrapper<K, V, E, S> {
    /// A lock error, converted into the store's error.
    fn lock_error(e: EmptyDumbError) -> (r: E)
        ensures
            call_ensures(E::from, (e,), r),
    {
        E::from(e)
    }

    /// Takes the store's lock for `key`.
    fn lock_for(&self, key: &K, mode: LockMode, blocking: Blocking) -> (r: Result<RwLockAnyGuardKey<K, S>, E>)
        ensures
            r is Ok ==> cloned(*key, r->Ok_0.key()),
            r is Ok ==> r->Ok_0.is_exclusive() == (mode == LockMode::Exclusive),
            blocking == Blocking::Block && r is Err ==> call_ensures(
                E::from,
                (EmptyDumbError::Poisoned,),
                r->Err_0,
            ),
            r is Err ==> call_ensures(E::from, (EmptyDumbError::Poisoned,), r->Err_0)
                || call_ensures(E::from, (EmptyDumbError::WouldBlock,), r->Err_0),
    {
        match take(self.store, key.clone(), mode, blocking) {
            Ok(h) => Ok(h),
            Err(e) => Err(Self::lock_error(e)),
        }
    }
}

impl<K: Clone, V: Clone, E: From<EmptyDumbError>, S: TryCacheStore<Key = K, Value = V, Error = E> + 'static> ThreadSafeTryCacheStore for DumbTryThreadSafeWrapper<K, V, E, S> {
    type Key = K;
    type Value = V;
    type Lock = RwLockAnyGuardKey<K, S>;
    type Error = E;

    open spec fn lock_key(lock: Self::Lock) -> K {
        lock.key()
    }

    open spec fn lock_is_exclusive(lock: Self::Lock) -> bool {
        lock.is_exclusive()
    }

    /// The conversion of `WouldBlock`, where it differs from that of `Poisoned`.
    open spec fn would_block(e: E) -> bool {
        call_ensures(E::from, (EmptyDumbError::WouldBlock,), e) && !call_ensures(
            E::from,
            (EmptyDumbError::Poisoned,),
            e,
        )
    }

    /// The store's `try_get` on the store the handle holds.
    open spec fn reads(&self, lock: Self::Lock, r: Result<Option<V>, E>) -> bool {
        &&& S::plain() && r is Ok ==> copy_of(r->Ok_0, lookup(lock.value().entries(), lock.key()))
        &&& S::infallible() ==> r is Ok
        &&& r is Err ==> lock.value().get_fails(lock.key(), r->Err_0)
    }

    /// The store's `try_set` on the store the handle holds.
    open spec fn writes(&self, before: Self::Lock, after: Self::Lock, value: V, r: Result<(), E>) -> bool {
        &&& S::plain() && r is Ok ==> stored_under(
            before.value().entries(),
            after.value().entries(),
            before.key(),
            value,
        )
        &&& S::infallible() ==> r is Ok
        &&& r is Err ==> before.value().set_fails(before.key(), value, r->Err_0)
    }

    /// The store's `try_exists` on the store the handle holds.
    open spec fn checks(&self, lock: Self::Lock, r: Result<bool, E>) -> bool {
        &&& S::plain() && r is Ok ==> r->Ok_0 == lock.value().entries().contains_key(lock.key())
        &&& S::infallible() ==> r is Ok
        &&& r is Err ==> lock.value().exists_fails(lock.key(), r->Err_0)
    }

    fn ts_try_get(&self, handle: &Self::Lock) -> (r: Result<Option<V>, E>) {
        let r = handle.data().try_get(handle.get_key());
        assert(self.reads(*handle, r));
        r
    }

    fn ts_try_set(&self, handle: &mut Self::Lock, value: &V) -> (r: Result<(), E>) {
        let ghost before = *handle;
        let r = match handle {
            RwLockAnyGuardKey::Write(held, key) => held.data_mut().try_set(key, value),
            RwLockAnyGuardKey::Read(..) => {
                proof {
                    assert(false);
                }
                Err(E::from(EmptyDumbError::WouldBlock))
            },
        };
        assert(self.writes(before, *handle, *value, r));
        assert(Self::lock_key(*handle) == Self::lock_key(before));
        assert(Self::lock_is_exclusive(*handle));
        r
    }

    fn ts_try_exists(&self, handle: &Self::Lock) -> (r: Result<bool, E>) {
        let r = handle.data().try_exists(handle.get_key());
        assert(self.checks(*handle, r));
        r
    }

    fn ts_try_xlock(&self, key: &K) -> (r: Result<Self::Lock, E>) {
        let r = self.lock_for(key, LockMode::Exclusive, Blocking::Block);
        assert(r is Ok ==> Self::lock_key(r->Ok_0) == r->Ok_0.key());
        assert(r is Ok ==> Self::lock_is_exclusive(r->Ok_0));
        assert(r is Err ==> !Self::would_block(r->Err_0));
        r
    }

    fn ts_try_slock(&self, key: &K) -> (r: Result<Self::Lock, E>) {
        let r = self.lock_for(key, LockMode::Shared, Blocking::Block);
        assert(r is Ok ==> Self::lock_key(r->Ok_0) == r->Ok_0.key());
        assert(r is Ok ==> !Self::lock_is_exclusive(r->Ok_0));
        assert(r is Err ==> !Self::would_block(r->Err_0));
        r
    }

    fn ts_try_xlock_nblock(&self, key: &K) -> (r: Result<Self::Lock, E>) {
        let r = self.lock_for(key, LockMode::Exclusive, Blocking::TryOnce);
        assert(r is Ok ==> Self::lock_key(r->Ok_0) == r->Ok_0.key());
        assert(r is Ok ==> Self::lock_is_exclusive(r->Ok_0));
        r
    }

    fn ts_try_slock_nblock(&self, key: &K) -> (r: Result<Self::Lock, E>) {
        let r = self.lock_for(key, LockMode::Shared, Blocking::TryOnce);
        assert(r is Ok ==> Self::lock_key(r->Ok_0) == r->Ok_0.key());
        assert(r is Ok ==> !Self::lock_is_exclusive(r->Ok_0));
        r
    }
}

} // verus!
