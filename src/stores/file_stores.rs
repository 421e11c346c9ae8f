//! Thread-safe stores that keep one file per key in a directory.
//!
//! The file of a key is named by the URL-safe base64 form of the SHA-256 digest of the
//! key's bytes. Reading and writing the files, and the format of their contents, are
//! left to a [`FileBackend`]: one backend keeps raw bytes, another a serialized value.
//! Whether an entry exists is whether its file exists.

use base64::prelude::BASE64_URL_SAFE;
use base64::Engine;
use sha2::{Digest, Sha256};
use std::hash::Hash;
use std::marker::PhantomData;
use vstd::prelude::*;
use vstd::utf8::encode_utf8;

use crate::thread_safe::dumb_wrappers::EmptyDumbError;
use crate::thread_safe::key_locks::{Blocking, KeyLocks, LockMode, RwLockAnyGuardKey};
use crate::thread_safe::ThreadSafeTryCacheStore;

verus! {

/// The SHA-256 digest of `b`.
pub uninterp spec fn sha256_of(b: Seq<u8>) -> Seq<u8>;


/// Relies on `sha2::Sha256::digest`: the 32-byte SHA-256 digest of the input.
#[verifier::external_body]
fn sha256_digest(data: &[u8]) -> (r: Vec<u8>)
    ensures
        r@ == sha256_of(data@),
        r@.len() == 32,
{
    Sha256::digest(data).to_vec()
}

/// The characters of the URL-safe base64 alphabet, with its padding character.
pub open spec fn url_safe_char(c: char) -> bool {
    ('A' <= c && c <= 'Z') || ('a' <= c && c <= 'z') || ('0' <= c && c <= '9') || c == '-' || c
        == '_' || c == '='
}

/// The URL-safe base64 digit of the six-bit value `i`.
pub open spec fn sextet(i: int) -> char {
    if i < 26 {
        (65 + i) as char
    } else if i < 52 {
        (97 + i - 26) as char
    } else if i < 62 {
        (48 + i - 52) as char
    } else if i == 62 {
        '-'
    } else {
        '_'
    }
}

/// The padded URL-safe base64 text of `b`: each three bytes, read as four six-bit
/// values from the high bits down, give four digits; a last group of one or two bytes
/// gives two or three digits, padded with `=` to four.
pub open spec fn base64_url_of(b: Seq<u8>) -> Seq<char>
    decreases b.len(),
{
    if b.len() == 0 {
        Seq::empty()
    } else if b.len() == 1 {
        let x = b[0] as int;
        seq![sextet(x / 4), sextet((x % 4) * 16), '=', '=']
    } else if b.len() == 2 {
        let x = b[0] as int;
        let y = b[1] as int;
        seq![sextet(x / 4), sextet((x % 4) * 16 + y / 16), sextet((y % 16) * 4), '=']
    } else {
        let x = b[0] as int;
        let y = b[1] as int;
        let z = b[2] as int;
        seq![sextet(x / 4), sextet((x % 4) * 16 + y / 16), sextet((y % 16) * 4 + z / 64), sextet(z % 64)]
            + base64_url_of(b.subrange(3, b.len() as int))
    }
}

/// Base64 text has four characters for each three bytes or part of three, all of the
/// URL-safe alphabet or padding.
pub proof fn lemma_base64_url_shape(b: Seq<u8>)
    ensures
        base64_url_of(b).len() == 4 * ((b.len() + 2) / 3),
        forall|i: int| 0 <= i < base64_url_of(b).len() ==> url_safe_char(#[trigger] base64_url_of(b)[i]),
    decreases b.len(),
{
    if b.len() > 2 {
        let rest = b.subrange(3, b.len() as int);
        lemma_base64_url_shape(rest);
        let x = b[0] as int;
        let y = b[1] as int;
        let z = b[2] as int;
        let head = seq![sextet(x / 4), sextet((x % 4) * 16 + y / 16), sextet((y % 16) * 4 + z / 64), sextet(z % 64)];
        assert(base64_url_of(b) == head + base64_url_of(rest));
        assert forall|i: int| 0 <= i < base64_url_of(b).len() implies url_safe_char(#[trigger] base64_url_of(b)[i]) by {
            if i >= 4 {
                assert(base64_url_of(b)[i] == base64_url_of(rest)[i - 4]);
            }
        }
    }
}

/// Relies on `base64::Engine::encode` with `BASE64_URL_SAFE`: padded URL-safe base64.
#[verifier::external_body]
fn base64_url(data: &[u8]) -> (r: String)
    requires
        data@.len() <= 1024,
    ensures
        r@ == base64_url_of(data@),
{
    BASE64_URL_SAFE.encode(data)
}

/// The file name of a key whose bytes are `b`.
pub open spec fn file_name_spec(b: Seq<u8>) -> Seq<char> {
    base64_url_of(sha256_of(b))
}

/// The file name of a key whose bytes are `bytes`: 44 characters of the URL-safe base64
/// alphabet, so it holds no path separator and is neither `.` nor `..`.
pub fn file_name_of(bytes: &[u8]) -> (r: String)
    ensures
        r@ == file_name_spec(bytes@),
        r@.len() == 44,
        forall|i: int| 0 <= i < r@.len() ==> url_safe_char(#[trigger] r@[i]),
{
    let digest = sha256_digest(bytes);
    proof {
        lemma_base64_url_shape(digest@);
    }
    base64_url(digest.as_slice())
}

/// A key that names a file.
pub trait CustomHash {
    /// The bytes the file name is derived from.
    spec fn name_bytes(&self) -> Seq<u8>;

    /// The file name of the key.
    fn hash(&self) -> (r: String)
        ensures
            r@ == file_name_spec(self.name_bytes()),
            r@.len() == 44,
    ;
}

impl CustomHash for String {
    open spec fn name_bytes(&self) -> Seq<u8> {
        encode_utf8(self@)
    }

    fn hash(&self) -> (r: String) {
        file_name_of(self.as_str().as_bytes())
    }
}

impl CustomHash for Vec<u8> {
    open spec fn name_bytes(&self) -> Seq<u8> {
        self@
    }

    fn hash(&self) -> (r: String) {
        file_name_of(self.as_slice())
    }
}

/// Reads and writes the files of a directory by name. `V` is what a file holds once
/// read: the raw bytes, or a value serialized into them.
pub trait FileBackend<V> {
    type Error;

    /// The contents of the file `name`, or `None` where there is no such file.
    fn read_file(&self, name: &String) -> Result<Option<V>, Self::Error>;

    /// Creates or overwrites the file `name` with `value`.
    fn write_file(&self, name: &String, value: &V) -> Result<(), Self::Error>;

    /// Whether the file `name` exists.
    fn file_exists(&self, name: &String) -> Result<bool, Self::Error>;
}

/// The name of the file of `key`.
pub open spec fn key_file<K: CustomHash>(key: K) -> Seq<char> {
    file_name_spec(key.name_bytes())
}

/// The file store's result for a backend result `r`.
pub open spec fn from_backend<T, E>(r: Result<T, E>) -> Result<T, ThreadSafeFileStoreError<E>> {
    match r {
        Ok(v) => Ok(v),
        Err(e) => Err(ThreadSafeFileStoreError::Backend(e)),
    }
}

/// Errors of the file stores.
#[derive(Debug, PartialEq, Eq)]
pub enum ThreadSafeFileStoreError<E> {
    /// The backend failed to read or write a file.
    Backend(E),
    /// A thread panicked while it held the key's lock.
    Poisoned,
    /// The key's lock is held, and the caller asked not to wait.
    WouldBlock,
}

/// The file store's error for a lock that could not be taken.
pub fn lock_error<E>(e: EmptyDumbError) -> (r: ThreadSafeFileStoreError<E>)
    ensures
        e is Poisoned ==> r is Poisoned,
        e is WouldBlock ==> r is WouldBlock,
{
    match e {
        EmptyDumbError::Poisoned => ThreadSafeFileStoreError::Poisoned,
        EmptyDumbError::WouldBlock => ThreadSafeFileStoreError::WouldBlock,
    }
}

/// Thread-safe store over the files of a directory, one file per key.
#[verifier::reject_recursive_types(K)]
#[verifier::reject_recursive_types(V)]
pub struct ThreadSafeFileStore<K, V, B: FileBackend<V>> {
    backend: B,
    locks: KeyLocks<K, ()>,
    phantom: PhantomData<V>,
}

/// The file store whose backend serializes values; the type is the same, the backend
/// decides the format.
pub type ThreadSafeFileStoreSerializable<K, V, B> = ThreadSafeFileStore<K, V, B>;

impl<K: Hash + Eq + Clone, V, B: FileBackend<V>> ThreadSafeFileStore<K, V, B> {
    /// A store over the files that `backend` reads and writes.
    pub fn with_backend(backend: B) -> (r: Self)
        ensures
            r.backend() == backend,
    {
        ThreadSafeFileStore { backend, locks: KeyLocks::new(), phantom: PhantomData }
    }

    pub closed spec fn backend(&self) -> B {
        self.backend
    }

    /// The store's handles are the lock directory's, and every error but a lock's is
    /// the backend's.
    proof fn lemma_handles()
        where
            K: CustomHash,
            V: Clone,
        ensures
            forall|l: RwLockAnyGuardKey<K, ()>| #[trigger] Self::lock_key(l) == l.key(),
            forall|l: RwLockAnyGuardKey<K, ()>| #[trigger] Self::lock_is_exclusive(l)
                == l.is_exclusive(),
            forall|e: ThreadSafeFileStoreError<B::Error>| #[trigger] Self::would_block(e) == (
            e is WouldBlock),
    {
    }

    /// The name of the file of `key`.
    pub fn get_path_of(&self, key: &K) -> (r: String)
        where
            K: CustomHash,
        ensures
            r@ == file_name_spec(key.name_bytes()),
    {
        CustomHash::hash(key)
    }
}

impl<K: Hash + Eq + Clone + CustomHash, V: Clone, B: FileBackend<V>> ThreadSafeTryCacheStore for ThreadSafeFileStore<
    K,
    V,
    B,
> {
    type Key = K;
    type Value = V;
    type Lock = RwLockAnyGuardKey<K, ()>;
    type Error = ThreadSafeFileStoreError<B::Error>;

    open spec fn lock_key(lock: Self::Lock) -> K {
        lock.key()
    }

    open spec fn lock_is_exclusive(lock: Self::Lock) -> bool {
        lock.is_exclusive()
    }

    open spec fn would_block(e: Self::Error) -> bool {
        e is WouldBlock
    }

    /// A read of the key's file, `key_file(key)`, gave `r`.
    open spec fn reads(&self, lock: Self::Lock, r: Result<Option<V>, Self::Error>) -> bool {
        exists|name: String, b: Result<Option<V>, B::Error>|
            name@ == key_file(lock.key()) && #[trigger] call_ensures(B::read_file, (&self.backend(), &name), b)
                && r == from_backend(b)
    }

    /// A write of `value` to the key's file, `key_file(key)`, gave `r`.
    open spec fn writes(
        &self,
        before: Self::Lock,
        after: Self::Lock,
        value: V,
        r: Result<(), Self::Error>,
    ) -> bool {
        exists|name: String, b: Result<(), B::Error>|
            name@ == key_file(before.key()) && #[trigger] call_ensures(B::write_file, (&self.backend(), &name, &value), b)
                && r == from_backend(b)
    }

    /// Asking whether the key's file, `key_file(key)`, exists gave `r`.
    open spec fn checks(&self, lock: Self::Lock, r: Result<bool, Self::Error>) -> bool {
        exists|name: String, b: Result<bool, B::Error>|
            name@ == key_file(lock.key()) && #[trigger] call_ensures(B::file_exists, (&self.backend(), &name), b)
                && r == from_backend(b)
    }

    fn ts_try_get(&self, handle: &Self::Lock) -> (r: Result<Option<V>, Self::Error>) {
        let name = self.get_path_of(handle.get_key());
        proof {
            Self::lemma_handles();
        }
        let b = self.backend.read_file(&name);
        assert(call_ensures(B::read_file, (&self.backend(), &name), b));
        assert(name@ == key_file(handle.key()));
        let r = match b {
            Ok(v) => Ok(v),
            Err(e) => Err(ThreadSafeFileStoreError::Backend(e)),
        };
        assert(r == from_backend(b));
        assert(self.reads(*handle, r));
        r
    }

    fn ts_try_set(&self, handle: &mut Self::Lock, value: &V) -> (r: Result<(), Self::Error>) {
        let name = self.get_path_of(handle.get_key());
        proof {
            Self::lemma_handles();
        }
        let b = self.backend.write_file(&name, value);
        let r = match b {
            Ok(()) => Ok(()),
            Err(e) => Err(ThreadSafeFileStoreError::Backend(e)),
        };
        assert(r == from_backend(b));
        r
    }

    fn ts_try_exists(&self, handle: &Self::Lock) -> (r: Result<bool, Self::Error>) {
        let name = self.get_path_of(handle.get_key());
        proof {
            Self::lemma_handles();
        }
        let b = self.backend.file_exists(&name);
        assert(call_ensures(B::file_exists, (&self.backend(), &name), b));
        assert(name@ == key_file(handle.key()));
        let r = match b {
            Ok(b) => Ok(b),
            Err(e) => Err(ThreadSafeFileStoreError::Backend(e)),
        };
        assert(r == from_backend(b));
        assert(self.checks(*handle, r));
        r
    }

    fn ts_try_xlock(&self, key: &K) -> (r: Result<Self::Lock, Self::Error>) {
        proof {
            Self::lemma_handles();
        }
        match self.locks.acquire(key, LockMode::Exclusive, Blocking::Block, ()) {
            Ok(h) => Ok(h),
            Err(e) => Err(lock_error(e)),
        }
    }

    fn ts_try_slock(&self, key: &K) -> (r: Result<Self::Lock, Self::Error>) {
        proof {
            Self::lemma_handles();
        }
        match self.locks.acquire(key, LockMode::Shared, Blocking::Block, ()) {
            Ok(h) => Ok(h),
            Err(e) => Err(lock_error(e)),
        }
    }

    fn ts_try_xlock_nblock(&self, key: &K) -> (r: Result<Self::Lock, Self::Error>) {
        proof {
            Self::lemma_handles();
        }
        match self.locks.acquire(key, LockMode::Exclusive, Blocking::TryOnce, ()) {
            Ok(h) => Ok(h),
            Err(e) => Err(lock_error(e)),
        }
    }

    fn ts_try_slock_nblock(&self, key: &K) -> (r: Result<Self::Lock, Self::Error>) {
        proof {
            Self::lemma_handles();
        }
        match self.locks.acquire(key, LockMode::Shared, Blocking::TryOnce, ()) {
            Ok(h) => Ok(h),
            Err(e) => Err(lock_error(e)),
        }
    }
}

} // verus!
