use std::collections::HashMap;
use std::sync::Mutex;

use serde::de::DeserializeOwned;
use serde::Serialize;

use ezcache::stores::file_stores::{
    file_name_of, lock_error, CustomHash, FileBackend, ThreadSafeFileStore, ThreadSafeFileStoreError,
    ThreadSafeFileStoreSerializable,
};
use ezcache::thread_safe::generative::{ThreadSafeGenTryCacheStoreWrapper, ThreadSafeTryGenCacheStore};
use ezcache::thread_safe::dumb_wrappers::EmptyDumbError;
use ezcache::thread_safe::ThreadSafeTryCacheStore;

/// Files of one directory, kept in memory.
struct MemoryFiles {
    directory: String,
    files: Mutex<HashMap<String, Vec<u8>>>,
}

impl MemoryFiles {
    fn new(directory: &str) -> Self {
        MemoryFiles { directory: directory.to_string(), files: Mutex::new(HashMap::new()) }
    }

    fn path(&self, name: &String) -> String {
        format!("{}/{}", self.directory, name)
    }
}

#[derive(Debug, PartialEq)]
enum TestIo {
    Broken,
}

impl FileBackend<Vec<u8>> for MemoryFiles {
    type Error = TestIo;

    fn read_file(&self, name: &String) -> Result<Option<Vec<u8>>, TestIo> {
        let files = self.files.lock().map_err(|_| TestIo::Broken)?;
        Ok(files.get(&self.path(name)).cloned())
    }

    fn write_file(&self, name: &String, value: &Vec<u8>) -> Result<(), TestIo> {
        let mut files = self.files.lock().map_err(|_| TestIo::Broken)?;
        files.insert(self.path(name), value.clone());
        Ok(())
    }

    fn file_exists(&self, name: &String) -> Result<bool, TestIo> {
        let files = self.files.lock().map_err(|_| TestIo::Broken)?;
        Ok(files.contains_key(&self.path(name)))
    }
}

/// A backend whose every access fails.
struct BrokenFiles;

impl FileBackend<Vec<u8>> for BrokenFiles {
    type Error = TestIo;

    fn read_file(&self, _: &String) -> Result<Option<Vec<u8>>, TestIo> {
        Err(TestIo::Broken)
    }

    fn write_file(&self, _: &String, _: &Vec<u8>) -> Result<(), TestIo> {
        Err(TestIo::Broken)
    }

    fn file_exists(&self, _: &String) -> Result<bool, TestIo> {
        Err(TestIo::Broken)
    }
}

#[test]
fn file_names_are_url_safe_sha256() {
    assert_eq!(file_name_of(b"a"), "ypeBEsobvcr6wjGzmiPcTaeG7_gUfE5yuYB3ha_uSLs=");
    assert_eq!(file_name_of(b""), "47DEQpj8HBSa-_TImW-5JCeuQeRkm5NMpJWZG3hSuFU=");
    assert_eq!(
        CustomHash::hash(&String::from("test_key")),
        "kkiOHj7uzfmfPtLOWSM--0tPthLVZVwM6epStaUC5lU="
    );
    assert_eq!(CustomHash::hash(&b"a".to_vec()), file_name_of(b"a"));
}

#[test]
fn file_store_path_of_key() {
    let store: ThreadSafeFileStore<String, Vec<u8>, _> =
        ThreadSafeFileStore::with_backend(MemoryFiles::new("/tmp/c"));
    assert_eq!(
        store.get_path_of(&String::from("a")),
        "ypeBEsobvcr6wjGzmiPcTaeG7_gUfE5yuYB3ha_uSLs="
    );
}

#[test]
fn file_store_scenario() {
    let store: ThreadSafeFileStore<String, Vec<u8>, _> =
        ThreadSafeFileStore::with_backend(MemoryFiles::new("/tmp/c"));
    let a = String::from("a");
    let b = String::from("b");
    assert_eq!(store.ts_one_try_set(&a, &vec![1, 2, 3]), Ok(()));
    assert_eq!(store.ts_one_try_get(&a), Ok(Some(vec![1, 2, 3])));
    assert_eq!(store.ts_one_try_exists(&b), Ok(false));

    let gen_store: ThreadSafeGenTryCacheStoreWrapper<
        _,
        _,
        ThreadSafeFileStoreError<TestIo>,
        _,
        _,
        ThreadSafeFileStoreError<TestIo>,
        _,
        _,
    > = ThreadSafeGenTryCacheStoreWrapper::new(store, |_: &String, ()| Ok(vec![9]));
    assert_eq!(gen_store.ts_try_get_or_new(&b, ()), Ok(vec![9]));
    assert_eq!(gen_store.ts_one_try_get(&b), Ok(Some(vec![9])));
}

#[test]
fn file_store_round_trip_empty_payload() {
    let store: ThreadSafeFileStore<String, Vec<u8>, _> =
        ThreadSafeFileStore::with_backend(MemoryFiles::new("/tmp/e"));
    let key = String::from("empty");
    assert_eq!(store.ts_one_try_exists(&key), Ok(false));
    assert_eq!(store.ts_one_try_set(&key, &Vec::new()), Ok(()));
    assert_eq!(store.ts_one_try_get(&key), Ok(Some(Vec::new())));
    assert_eq!(store.ts_one_try_exists(&key), Ok(true));
}

#[test]
fn file_store_backend_failure_is_reported() {
    let store: ThreadSafeFileStore<String, Vec<u8>, _> = ThreadSafeFileStore::with_backend(BrokenFiles);
    let key = String::from("k");
    assert_eq!(
        store.ts_one_try_get(&key),
        Err(ThreadSafeFileStoreError::Backend(TestIo::Broken))
    );
    assert_eq!(
        store.ts_one_try_set(&key, &vec![1]),
        Err(ThreadSafeFileStoreError::Backend(TestIo::Broken))
    );
}

#[test]
fn file_store_locks_per_key() {
    let store: ThreadSafeFileStore<String, Vec<u8>, _> =
        ThreadSafeFileStore::with_backend(MemoryFiles::new("/tmp/l"));
    let k1 = String::from("one");
    let k2 = String::from("two");
    let x1 = store.ts_try_xlock_nblock(&k1).expect("first key");
    assert!(store.ts_try_xlock_nblock(&k2).is_ok());
    assert!(matches!(
        store.ts_try_slock_nblock(&k1),
        Err(ThreadSafeFileStoreError::WouldBlock)
    ));
    drop(x1);
    assert!(store.ts_try_slock_nblock(&k1).is_ok());
}

#[test]
fn lock_errors_map_to_file_store_errors() {
    assert_eq!(lock_error::<TestIo>(EmptyDumbError::Poisoned), ThreadSafeFileStoreError::Poisoned);
    assert_eq!(lock_error::<TestIo>(EmptyDumbError::WouldBlock), ThreadSafeFileStoreError::WouldBlock);
}

/// Values of one directory, kept in memory as they are.
struct ValueFiles<V> {
    files: Mutex<HashMap<String, V>>,
}

impl<V> ValueFiles<V> {
    fn new() -> Self {
        ValueFiles { files: Mutex::new(HashMap::new()) }
    }
}

impl<V: Clone> FileBackend<V> for ValueFiles<V> {
    type Error = TestIo;

    fn read_file(&self, name: &String) -> Result<Option<V>, TestIo> {
        let files = self.files.lock().map_err(|_| TestIo::Broken)?;
        Ok(files.get(name).cloned())
    }

    fn write_file(&self, name: &String, value: &V) -> Result<(), TestIo> {
        let mut files = self.files.lock().map_err(|_| TestIo::Broken)?;
        files.insert(name.clone(), value.clone());
        Ok(())
    }

    fn file_exists(&self, name: &String) -> Result<bool, TestIo> {
        let files = self.files.lock().map_err(|_| TestIo::Broken)?;
        Ok(files.contains_key(name))
    }
}

#[test]
fn raw_set_get() {
    let store: ThreadSafeFileStore<String, Vec<u8>, _> =
        ThreadSafeFileStore::with_backend(MemoryFiles::new("/tmp/raw"));

    let key = String::from("test_key");
    let value = String::from("my value").into_bytes().as_slice().to_vec();

    {
        let mut xlock = store
            .ts_try_xlock_nblock(&key)
            .expect("Failed to acquire exclusive lock");
        store
            .ts_try_set(&mut xlock, &value)
            .expect("Failed to set value");
    }

    {
        let slock = store
            .ts_try_slock_nblock(&key)
            .expect("Failed to acquire shared lock");
        let retrieved_value = store
            .ts_try_get(&slock)
            .expect("Failed to get value")
            .expect("Value not found");
        assert_eq!(
            retrieved_value, value,
            "Retrieved value does not match the original"
        );
    }
}

/// Values of one directory, kept in memory as bincode bytes.
struct BincodeMemoryFiles<V> {
    files: Mutex<HashMap<String, Vec<u8>>>,
    values: std::marker::PhantomData<V>,
}

impl<V> BincodeMemoryFiles<V> {
    fn new() -> Self {
        BincodeMemoryFiles { files: Mutex::new(HashMap::new()), values: std::marker::PhantomData }
    }
}

impl<V: Serialize + DeserializeOwned> FileBackend<V> for BincodeMemoryFiles<V> {
    type Error = TestIo;

    fn read_file(&self, name: &String) -> Result<Option<V>, TestIo> {
        let files = self.files.lock().map_err(|_| TestIo::Broken)?;
        match files.get(name) {
            Some(bytes) => bincode::deserialize(bytes).map(Some).map_err(|_| TestIo::Broken),
            None => Ok(None),
        }
    }

    fn write_file(&self, name: &String, value: &V) -> Result<(), TestIo> {
        let bytes = bincode::serialize(value).map_err(|_| TestIo::Broken)?;
        let mut files = self.files.lock().map_err(|_| TestIo::Broken)?;
        files.insert(name.clone(), bytes);
        Ok(())
    }

    fn file_exists(&self, name: &String) -> Result<bool, TestIo> {
        let files = self.files.lock().map_err(|_| TestIo::Broken)?;
        Ok(files.contains_key(name))
    }
}

#[test]
fn serialization_set_get() {
    // A (name, number) pair, which serde serializes without a derive.
    let store: ThreadSafeFileStoreSerializable<String, (String, i32), _> =
        ThreadSafeFileStore::with_backend(BincodeMemoryFiles::new());

    let key = String::from("test_key");
    let value = (String::from("test_name"), 42);

    {
        let mut xlock = store
            .ts_try_xlock_nblock(&key)
            .expect("Failed to acquire exclusive lock");
        store
            .ts_try_set(&mut xlock, &value)
            .expect("Failed to set value");
    }

    {
        let slock = store
            .ts_try_slock_nblock(&key)
            .expect("Failed to acquire shared lock");
        let retrieved_value = store
            .ts_try_get(&slock)
            .expect("Failed to get value")
            .expect("Value not found");
        assert_eq!(
            retrieved_value, value,
            "Retrieved value does not match the original"
        );
    }
}

#[test]
fn file_get_inexistent() {
    let store: ThreadSafeFileStoreSerializable<String, (), _> =
        ThreadSafeFileStore::with_backend(ValueFiles::new());

    assert_eq!(
        store
            .ts_one_try_get(&String::from("key that doesn't exist"))
            .expect("to not fail"),
        None
    );
}
