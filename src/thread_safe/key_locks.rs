//! The key lock directory: one read-write lock per key, created on first use and
//! kept until the process ends, found through a table behind one mutex.
//!
//! The table's mutex is held only to find or create a key's lock. The key's lock is
//! taken after the table's mutex is released, so work on one key never waits for
//! work on another. Each key's lock is allocated on its own and never moved or freed,
//! so a handle stays valid however the table changes.

use std::collections::HashMap;
use std::hash::Hash;
use std::sync::{Mutex, MutexGuard, RwLock, RwLockReadGuard, RwLockWriteGuard};
use vstd::prelude::*;

use super::dumb_wrappers::EmptyDumbError;

verus! {

/// std's mutex, its guard, its read-write lock and that lock's guards, opaque here.
#[verifier::external_type_specification]
#[verifier::external_body]
#[verifier::reject_recursive_types(T)]
pub struct ExMutex<T: ?Sized>(Mutex<T>);

#[verifier::external_type_specification]
#[verifier::external_body]
#[verifier::reject_recursive_types(T)]
pub struct ExMutexGuard<'a, T: ?Sized + 'a>(MutexGuard<'a, T>);

#[verifier::external_type_specification]
#[verifier::external_body]
#[verifier::reject_recursive_types(T)]
pub struct ExRwLock<T: ?Sized>(RwLock<T>);

#[verifier::external_type_specification]
#[verifier::external_body]
#[verifier::reject_recursive_types(T)]
pub struct ExRwLockReadGuard<'a, T: ?Sized>(RwLockReadGuard<'a, T>);

#[verifier::external_type_specification]
#[verifier::external_body]
#[verifier::reject_recursive_types(T)]
pub struct ExRwLockWriteGuard<'a, T: ?Sized + 'a>(RwLockWriteGuard<'a, T>);

/// Relies on `Mutex::new`: an unlocked mutex around `t`; nothing more is claimed.
pub assume_specification<T>[ Mutex::<T>::new ](t: T) -> Mutex<T>;

/// Relies on `RwLock::new`: an unlocked read-write lock around `t`; nothing more is
/// claimed.
pub assume_specification<T>[ RwLock::<T>::new ](t: T) -> RwLock<T>;

/// Relies on `Mutex::lock`: it waits for the mutex and fails only when a thread
/// panicked while holding it. It must not be called by the thread that holds it.
#[verifier::external_body]
pub(crate) fn lock_mutex<T>(m: &Mutex<T>) -> (r: Result<MutexGuard<'_, T>, EmptyDumbError>)
    ensures
        r is Err ==> r->Err_0 is Poisoned,
{
    match m.lock() {
        Ok(g) => Ok(g),
        Err(_) => Err(EmptyDumbError::Poisoned),
    }
}

/// Relies on `Mutex::try_lock`: it never waits, and fails where the mutex is held or
/// a thread panicked while holding it.
#[verifier::external_body]
fn try_lock_mutex<T>(m: &Mutex<T>) -> (r: Result<MutexGuard<'_, T>, EmptyDumbError>) {
    match m.try_lock() {
        Ok(g) => Ok(g),
        Err(std::sync::TryLockError::Poisoned(_)) => Err(EmptyDumbError::Poisoned),
        Err(std::sync::TryLockError::WouldBlock) => Err(EmptyDumbError::WouldBlock),
    }
}

/// Relies on `Deref` of `MutexGuard`: the data behind a held mutex.
#[verifier::external_body]
pub(crate) fn mutex_data<'b, 'a, T>(g: &'b MutexGuard<'a, T>) -> &'b T {
    &**g
}

/// Relies on `DerefMut` of `MutexGuard`: the data behind a held mutex.
#[verifier::external_body]
pub(crate) fn mutex_data_mut<'b, 'a, T>(g: &'b mut MutexGuard<'a, T>) -> &'b mut T {
    &mut **g
}

/// Relies on `Box::leak`: the lock is never freed, so it may be borrowed for as long
/// as the program runs.
#[verifier::external_body]
pub(crate) fn leak_lock<T: 'static>(b: Box<RwLock<T>>) -> &'static RwLock<T> {
    Box::leak(b)
}

/// Relies on `RwLock::write`: it waits until no one holds the lock, and fails only
/// when a thread panicked while holding it exclusively.
#[verifier::external_body]
fn write_lock<T>(l: &'static RwLock<T>) -> (r: Result<RwLockWriteGuard<'static, T>, EmptyDumbError>)
    ensures
        r is Err ==> r->Err_0 is Poisoned,
{
    match l.write() {
        Ok(g) => Ok(g),
        Err(_) => Err(EmptyDumbError::Poisoned),
    }
}

/// Relies on `RwLock::read`: it waits until no one holds the lock exclusively, and
/// fails only when a thread panicked while holding it exclusively.
#[verifier::external_body]
fn read_lock<T>(l: &'static RwLock<T>) -> (r: Result<RwLockReadGuard<'static, T>, EmptyDumbError>)
    ensures
        r is Err ==> r->Err_0 is Poisoned,
{
    match l.read() {
        Ok(g) => Ok(g),
        Err(_) => Err(EmptyDumbError::Poisoned),
    }
}

/// Relies on `RwLock::try_write`: it never waits.
#[verifier::external_body]
fn try_write_lock<T>(l: &'static RwLock<T>) -> (r: Result<
    RwLockWriteGuard<'static, T>,
    EmptyDumbError,
>) {
    match l.try_write() {
        Ok(g) => Ok(g),
        Err(std::sync::TryLockError::Poisoned(_)) => Err(EmptyDumbError::Poisoned),
        Err(std::sync::TryLockError::WouldBlock) => Err(EmptyDumbError::WouldBlock),
    }
}

/// Relies on `RwLock::try_read`: it never waits.
#[verifier::external_body]
fn try_read_lock<T>(l: &'static RwLock<T>) -> (r: Result<RwLockReadGuard<'static, T>, EmptyDumbError>) {
    match l.try_read() {
        Ok(g) => Ok(g),
        Err(std::sync::TryLockError::Poisoned(_)) => Err(EmptyDumbError::Poisoned),
        Err(std::sync::TryLockError::WouldBlock) => Err(EmptyDumbError::WouldBlock),
    }
}

/// Relies on `Deref` of `RwLockReadGuard`: the data behind a shared lock.
#[verifier::external_body]
fn read_guard_data<'b, T>(g: &'b RwLockReadGuard<'static, T>) -> &'b T {
    &**g
}

/// Relies on `Deref` of `RwLockWriteGuard`: the data behind an exclusive lock.
#[verifier::external_body]
fn write_guard_data<'b, T>(g: &'b RwLockWriteGuard<'static, T>) -> &'b T {
    &**g
}

/// A held shared lock, with the value it guards. No one writes the data while a shared
/// lock is held, so the value stays what it was when the lock was taken.
#[verifier::reject_recursive_types(T)]
pub struct ReadHeld<T: 'static> {
    guard: RwLockReadGuard<'static, T>,
    value: Ghost<T>,
}

impl<T: 'static> ReadHeld<T> {
    /// The value the lock guards.
    pub closed spec fn value(&self) -> T {
        self.value@
    }

    fn new(guard: RwLockReadGuard<'static, T>) -> Self {
        let data = read_guard_data(&guard);
        let ghost value = *data;
        ReadHeld { guard, value: Ghost(value) }
    }

    /// Relies on `Deref` of `RwLockReadGuard`: while the lock is held the data is the
    /// value it had when the lock was taken.
    #[verifier::external_body]
    pub fn data(&self) -> (r: &T)
        ensures
            *r == self.value(),
    {
        &*self.guard
    }
}

/// A held exclusive lock, with the value it guards. Only the holder writes the data,
/// so the value is what the lock was taken with or what the holder last wrote.
#[verifier::reject_recursive_types(T)]
pub struct WriteHeld<T: 'static> {
    guard: RwLockWriteGuard<'static, T>,
    value: Ghost<T>,
}

impl<T: 'static> WriteHeld<T> {
    /// The value the lock guards.
    pub closed spec fn value(&self) -> T {
        self.value@
    }

    fn new(guard: RwLockWriteGuard<'static, T>) -> Self {
        let data = write_guard_data(&guard);
        let ghost value = *data;
        WriteHeld { guard, value: Ghost(value) }
    }

    /// Relies on `Deref` of `RwLockWriteGuard`: while the lock is held the data is the
    /// value it was taken with or last given.
    #[verifier::external_body]
    pub fn data(&self) -> (r: &T)
        ensures
            *r == self.value(),
    {
        &*self.guard
    }

    /// Relies on `DerefMut` of `RwLockWriteGuard`: the data behind the lock, to change
    /// in place; the value is then what the data is left as.
    #[verifier::external_body]
    pub fn data_mut(&mut self) -> (r: &mut T)
        ensures
            *r == old(self).value(),
            final(self).value() == *final(r),
    {
        &mut *self.guard
    }

    /// Relies on `DerefMut` of `RwLockWriteGuard`: the data becomes `value`.
    #[verifier::external_body]
    pub fn replace(&mut self, value: T)
        ensures
            final(self).value() == value,
    {
        *self.guard = value;
    }
}

/// Shared or exclusive.
#[derive(Clone, Copy, Debug, PartialEq, Eq, Structural)]
pub enum LockMode {
    Shared,
    Exclusive,
}

/// Wait for the lock, or fail at once where it is taken.
#[derive(Clone, Copy, Debug, PartialEq, Eq, Structural)]
pub enum Blocking {
    Block,
    TryOnce,
}

/// A held lock together with the key it was taken for. The lock is released when the
/// handle is dropped.
#[verifier::reject_recursive_types(T)]
pub enum RwLockAnyGuardKey<K, T: 'static> {
    Read(ReadHeld<T>, K),
    Write(WriteHeld<T>, K),
}

impl<K, T: 'static> RwLockAnyGuardKey<K, T> {
    /// The key the lock was taken for.
    pub open spec fn key(&self) -> K {
        match self {
            RwLockAnyGuardKey::Read(_, k) => *k,
            RwLockAnyGuardKey::Write(_, k) => *k,
        }
    }

    /// Whether the lock is exclusive.
    pub open spec fn is_exclusive(&self) -> bool {
        self is Write
    }

    /// The value the lock guards.
    pub open spec fn value(&self) -> T {
        match self {
            RwLockAnyGuardKey::Read(h, _) => h.value(),
            RwLockAnyGuardKey::Write(h, _) => h.value(),
        }
    }

    pub fn get_key(&self) -> (r: &K)
        ensures
            *r == self.key(),
    {
        match self {
            RwLockAnyGuardKey::Read(_, k) => k,
            RwLockAnyGuardKey::Write(_, k) => k,
        }
    }

    pub fn exclusive(&self) -> (r: bool)
        ensures
            r == self.is_exclusive(),
    {
        match self {
            RwLockAnyGuardKey::Read(..) => false,
            RwLockAnyGuardKey::Write(..) => true,
        }
    }

    /// The data the lock guards.
    pub fn data(&self) -> (r: &T)
        ensures
            *r == self.value(),
    {
        match self {
            RwLockAnyGuardKey::Read(h, _) => h.data(),
            RwLockAnyGuardKey::Write(h, _) => h.data(),
        }
    }

    /// Replaces the data the lock guards.
    pub fn replace_data(&mut self, value: T)
        requires
            old(self).is_exclusive(),
        ensures
            final(self).key() == old(self).key(),
            final(self).is_exclusive(),
            final(self).value() == value,
    {
        match self {
            RwLockAnyGuardKey::Write(h, _) => h.replace(value),
            RwLockAnyGuardKey::Read(..) => {},
        }
    }
}

/// The directory of per-key locks, each guarding a `T`.
#[verifier::reject_recursive_types(K)]
#[verifier::reject_recursive_types(T)]
pub struct KeyLocks<K, T: 'static> {
    table: Mutex<HashMap<K, &'static RwLock<T>>>,
}

impl<K: Hash + Eq + Clone, T: 'static> KeyLocks<K, T> {
    pub fn new() -> Self {
        KeyLocks { table: Mutex::new(HashMap::new()) }
    }

    /// The lock of `key`, created holding `fresh` if the key has none yet. With
    /// `Blocking::TryOnce` it fails at once where the directory's mutex is held. The
    /// directory's mutex is released on return.
    fn lock_of(&self, key: &K, fresh: T, blocking: Blocking) -> (r: Result<
        &'static RwLock<T>,
        EmptyDumbError,
    >)
        ensures
            blocking == Blocking::Block && r is Err ==> r->Err_0 is Poisoned,
    {
        let locked = match blocking {
            Blocking::Block => lock_mutex(&self.table),
            Blocking::TryOnce => try_lock_mutex(&self.table),
        };
        let mut guard = match locked {
            Ok(g) => g,
            Err(e) => {
                return Err(e);
            },
        };
        let table = mutex_data_mut(&mut guard);
        let found = match table.get(key) {
            Some(l) => Some(*l),
            None => None,
        };
        let lock = match found {
            Some(l) => l,
            None => {
                let l = leak_lock(Box::new(RwLock::new(fresh)));
                table.insert(key.clone(), l);
                l
            },
        };
        Ok(lock)
    }

    /// Takes the lock of `key` in `mode`, creating the lock, holding `fresh`, if the key
    /// has none yet. The directory's own mutex is released before
    /// the key's lock is taken. With `Blocking::Block` it waits and fails only on a
    /// poisoned lock; with `Blocking::TryOnce` it waits for nothing and also fails, with
    /// `WouldBlock`, where the key's lock is held in a mode that excludes `mode` or the
    /// directory's mutex is held by another caller for its bookkeeping.
    pub fn acquire(&self, key: &K, mode: LockMode, blocking: Blocking, fresh: T) -> (r: Result<
        RwLockAnyGuardKey<K, T>,
        EmptyDumbError,
    >)
        ensures
            r is Ok ==> cloned(*key, r->Ok_0.key()),
            r is Ok ==> r->Ok_0.is_exclusive() == (mode == LockMode::Exclusive),
            blocking == Blocking::Block && r is Err ==> r->Err_0 is Poisoned,
    {
        let lock = match self.lock_of(key, fresh, blocking) {
            Ok(l) => l,
            Err(e) => {
                return Err(e);
            },
        };
        take(lock, key.clone(), mode, blocking)
    }
}

/// Takes `lock` in `mode`, for `key`. With `Blocking::Block` it waits and fails only on
/// a poisoned lock; with `Blocking::TryOnce` it also fails, with `WouldBlock`, where the
/// lock is held in a mode that excludes `mode`. As with std's locks, a thread that
/// already holds `lock` must not take it waiting.
pub(crate) fn take<K, T: 'static>(lock: &'static RwLock<T>, k: K, mode: LockMode, blocking: Blocking) -> (r: Result<
    RwLockAnyGuardKey<K, T>,
    EmptyDumbError,
>)
    ensures
        r is Ok ==> r->Ok_0.key() == k,
        r is Ok ==> r->Ok_0.is_exclusive() == (mode == LockMode::Exclusive),
        blocking == Blocking::Block && r is Err ==> r->Err_0 is Poisoned,
{
    match (mode, blocking) {
        (LockMode::Exclusive, Blocking::Block) => match write_lock(lock) {
            Ok(g) => Ok(RwLockAnyGuardKey::Write(WriteHeld::new(g), k)),
            Err(e) => Err(e),
        },
        (LockMode::Exclusive, Blocking::TryOnce) => match try_write_lock(lock) {
            Ok(g) => Ok(RwLockAnyGuardKey::Write(WriteHeld::new(g), k)),
            Err(e) => Err(e),
        },
        (LockMode::Shared, Blocking::Block) => match read_lock(lock) {
            Ok(g) => Ok(RwLockAnyGuardKey::Read(ReadHeld::new(g), k)),
            Err(e) => Err(e),
        },
        (LockMode::Shared, Blocking::TryOnce) => match try_read_lock(lock) {
            Ok(g) => Ok(RwLockAnyGuardKey::Read(ReadHeld::new(g), k)),
            Err(e) => Err(e),
        },
    }
}

} // verus!
