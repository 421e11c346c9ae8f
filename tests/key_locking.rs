use ezcache::stores::ThreadSafeMemoryStore;
use ezcache::thread_safe::ThreadSafeTryCacheStore;

#[test]
fn xlock_diff_keys() {
    let store = ThreadSafeMemoryStore::<usize, usize>::default();

    let x1 = store.ts_try_xlock_nblock(&0).expect("to xlock first key");
    let x2 = store.ts_try_xlock_nblock(&1).expect("to xlock second key");
    drop((x1, x2));
}

#[test]
fn xlock_same_key() {
    let store = ThreadSafeMemoryStore::<usize, usize>::default();

    let x1 = store.ts_try_xlock_nblock(&0).expect("to lock xfirst key");
    let x2 = store
        .ts_try_xlock_nblock(&0)
        .err()
        .expect("to not xlock first key");
    drop((x1, x2));
    let x3 = store
        .ts_try_xlock_nblock(&0)
        .expect("to re-xlock first key");
    drop(x3);
}

#[test]
fn slock_same_key() {
    let store = ThreadSafeMemoryStore::<usize, usize>::default();

    let s1 = store.ts_try_slock_nblock(&0).expect("to slock first key");
    let s2 = store
        .ts_try_slock_nblock(&0)
        .expect("to also slock first key");
    drop((s1, s2));
}

#[test]
fn xlock_slock_same_key() {
    let store = ThreadSafeMemoryStore::<usize, usize>::default();

    let x1 = store.ts_try_xlock_nblock(&0).expect("to xlock first key");
    let s1 = store
        .ts_try_slock_nblock(&0)
        .err()
        .expect("to not slock first key");
    drop((x1, s1));
}

#[test]
fn slock_twice_xlock_same_key() {
    let store = ThreadSafeMemoryStore::<usize, usize>::default();

    let s1 = store.ts_try_slock_nblock(&0).expect("to slock first key");
    let s2 = store
        .ts_try_slock_nblock(&0)
        .expect("to also slock first key");
    let x1 = store
        .ts_try_xlock_nblock(&0)
        .err()
        .expect("to not xlock first key");

    drop((x1, s1, s2));
}
