//! Thread-safe stores: each key is locked on its own, shared or exclusive, so that work
//! on different keys runs in parallel and work on one key is ordered.
//!
//! A handle is taken for a key first; reads and writes then go through it. The
//! contracts speak of what a read or write under a handle gives (`reads`, `writes`,
//! `checks`): for the memory store, the value the handle's lock guards; for the file
//! stores, what the backend gives for the key's file. Between two handles the entry
//! lives behind the key's lock, which no contract follows.

pub mod dumb;
pub mod dumb_wrappers;
pub mod generative;
pub mod key_locks;

use vstd::prelude::*;

verus! {

/// Fallible thread-safe store, with a lock per key.
pub trait ThreadSafeTryCacheStore {
    type Key: Clone;
    type Value: Clone;
    /// A held lock on one key, shared or exclusive. Dropping it releases the lock.
    type Lock;
    type Error;

    /// The key a handle was taken for.
    spec fn lock_key(lock: Self::Lock) -> Self::Key;

    /// Whether a handle is exclusive.
    spec fn lock_is_exclusive(lock: Self::Lock) -> bool;

    /// The error that says a lock is taken and the caller asked not to wait.
    spec fn would_block(e: Self::Error) -> bool;

    /// `r` is what reading the entry of the key held by `lock` gives.
    spec fn reads(&self, lock: Self::Lock, r: Result<Option<Self::Value>, Self::Error>) -> bool;

    /// `r` is what writing `value` under the key held by `before` gives, and `after` is
    /// the handle afterwards.
    spec fn writes(
        &self,
        before: Self::Lock,
        after: Self::Lock,
        value: Self::Value,
        r: Result<(), Self::Error>,
    ) -> bool;

    /// `r` is what asking whether the key held by `lock` has an entry gives.
    spec fn checks(&self, lock: Self::Lock, r: Result<bool, Self::Error>) -> bool;

    /// Returns a clone of the entry of the handle's key, if there is one.
    fn ts_try_get(&self, handle: &Self::Lock) -> (r: Result<Option<Self::Value>, Self::Error>)
        ensures
            self.reads(*handle, r),
    ;

    /// Stores a clone of `value` under the handle's key, which must be locked
    /// exclusively.
    fn ts_try_set(&self, handle: &mut Self::Lock, value: &Self::Value) -> (r: Result<
        (),
        Self::Error,
    >)
        requires
            Self::lock_is_exclusive(*old(handle)),
        ensures
            self.writes(*old(handle), *final(handle), *value, r),
            Self::lock_key(*final(handle)) == Self::lock_key(*old(handle)),
            Self::lock_is_exclusive(*final(handle)),
    ;

    /// Whether there is an entry for the handle's key.
    fn ts_try_exists(&self, handle: &Self::Lock) -> (r: Result<bool, Self::Error>)
        ensures
            self.checks(*handle, r),
    ;

    /// Locks `key` exclusively, waiting for it. As with std's locks, a thread that
    /// already holds a lock on `key` must not ask for it again: the call may panic or
    /// never return.
    fn ts_try_xlock(&self, key: &Self::Key) -> (r: Result<Self::Lock, Self::Error>)
        ensures
            r is Ok ==> cloned(*key, Self::lock_key(r->Ok_0)),
            r is Ok ==> Self::lock_is_exclusive(r->Ok_0),
            r is Err ==> !Self::would_block(r->Err_0),
    ;

    /// Locks `key` shared, waiting for it. As with std's locks, a thread that already
    /// holds a lock on `key` must not ask for it again: the call may panic or never
    /// return.
    fn ts_try_slock(&self, key: &Self::Key) -> (r: Result<Self::Lock, Self::Error>)
        ensures
            r is Ok ==> cloned(*key, Self::lock_key(r->Ok_0)),
            r is Ok ==> !Self::lock_is_exclusive(r->Ok_0),
            r is Err ==> !Self::would_block(r->Err_0),
    ;

    /// Locks `key` exclusively, or fails at once where it is held.
    fn ts_try_xlock_nblock(&self, key: &Self::Key) -> (r: Result<Self::Lock, Self::Error>)
        ensures
            r is Ok ==> cloned(*key, Self::lock_key(r->Ok_0)),
            r is Ok ==> Self::lock_is_exclusive(r->Ok_0),
    ;

    /// Locks `key` shared, or fails at once where it is held exclusively.
    fn ts_try_slock_nblock(&self, key: &Self::Key) -> (r: Result<Self::Lock, Self::Error>)
        ensures
            r is Ok ==> cloned(*key, Self::lock_key(r->Ok_0)),
            r is Ok ==> !Self::lock_is_exclusive(r->Ok_0),
    ;

    /// [`Self::ts_try_get`] under a shared lock taken for this call alone: the lock's
    /// error, which is never that it would block, or what a read under a shared handle
    /// on `key` gives.
    fn ts_one_try_get(&self, key: &Self::Key) -> (r: Result<Option<Self::Value>, Self::Error>)
        ensures
            (r is Err && !Self::would_block(r->Err_0)) || exists|h: Self::Lock|
                cloned(*key, Self::lock_key(h)) && !Self::lock_is_exclusive(h) && #[trigger] self.reads(h, r),
    {
        match self.ts_try_slock(key) {
            Ok(handle) => self.ts_try_get(&handle),
            Err(e) => Err(e),
        }
    }

    /// [`Self::ts_try_set`] under an exclusive lock taken for this call alone: the
    /// lock's error, which is never that it would block, or what a write of `value`
    /// under an exclusive handle on `key` gives.
    fn ts_one_try_set(&self, key: &Self::Key, value: &Self::Value) -> (r: Result<(), Self::Error>)
        ensures
            (r is Err && !Self::would_block(r->Err_0)) || exists|before: Self::Lock, after: Self::Lock|
                cloned(*key, Self::lock_key(before)) && Self::lock_is_exclusive(before)
                    && #[trigger] self.writes(before, after, *value, r),
    {
        match self.ts_try_xlock(key) {
            Ok(handle) => {
                let mut handle = handle;
                self.ts_try_set(&mut handle, value)
            },
            Err(e) => Err(e),
        }
    }

    /// [`Self::ts_try_exists`] under a shared lock taken for this call alone: the
    /// lock's error, which is never that it would block, or what asking under a shared
    /// handle on `key` gives.
    fn ts_one_try_exists(&self, key: &Self::Key) -> (r: Result<bool, Self::Error>)
        ensures
            (r is Err && !Self::would_block(r->Err_0)) || exists|h: Self::Lock|
                cloned(*key, Self::lock_key(h)) && !Self::lock_is_exclusive(h) && #[trigger] self.checks(h, r),
    {
        match self.ts_try_slock(key) {
            Ok(handle) => self.ts_try_exists(&handle),
            Err(e) => Err(e),
        }
    }
}

} // verus!
