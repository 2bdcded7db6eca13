use cosmwasm_std::MemoryStorage;
use multi_test::storage::KvStore;
use multi_test::transactions::{slice_eq, RepLog, StorageTransaction};

#[test]
fn memory_storage_set_get_remove() {
    let mut s = MemoryStorage::new();
    assert_eq!(KvStore::get(&s, b"foo"), None);
    KvStore::set(&mut s, b"foo", b"bar");
    assert_eq!(KvStore::get(&s, b"foo"), Some(b"bar".to_vec()));
    KvStore::set(&mut s, b"foo", b"baz");
    assert_eq!(KvStore::get(&s, b"foo"), Some(b"baz".to_vec()));
    KvStore::remove(&mut s, b"foo");
    assert_eq!(KvStore::get(&s, b"foo"), None);
}

#[test]
fn cache_reads_its_own_writes_and_falls_through() {
    let mut base = MemoryStorage::new();
    KvStore::set(&mut base, b"a", b"1");
    KvStore::set(&mut base, b"b", b"2");
    let mut cache = StorageTransaction::new(&base);
    assert_eq!(cache.get(b"a"), Some(b"1".to_vec()));
    cache.set(b"a", b"10");
    cache.remove(b"b");
    cache.set(b"c", b"3");
    assert_eq!(cache.get(b"a"), Some(b"10".to_vec()));
    assert_eq!(cache.get(b"b"), None);
    assert_eq!(cache.get(b"c"), Some(b"3".to_vec()));
    assert_eq!(cache.get(b"d"), None);
    // the store below stays as it was
    assert_eq!(KvStore::get(&base, b"a"), Some(b"1".to_vec()));
    assert_eq!(KvStore::get(&base, b"b"), Some(b"2".to_vec()));
    assert_eq!(KvStore::get(&base, b"c"), None);
}

#[test]
fn commit_writes_the_cache_to_the_store() {
    let mut base = MemoryStorage::new();
    KvStore::set(&mut base, b"a", b"1");
    KvStore::set(&mut base, b"b", b"2");
    let log = {
        let mut cache = StorageTransaction::new(&base);
        cache.set(b"a", b"10");
        cache.remove(b"b");
        cache.set(b"c", b"3");
        cache.set(b"c", b"4");
        cache.prepare()
    };
    assert_eq!(log.len(), 4);
    log.commit(&mut base);
    assert_eq!(KvStore::get(&base, b"a"), Some(b"10".to_vec()));
    assert_eq!(KvStore::get(&base, b"b"), None);
    assert_eq!(KvStore::get(&base, b"c"), Some(b"4".to_vec()));
}

#[test]
fn dropped_cache_changes_nothing() {
    let mut base = MemoryStorage::new();
    KvStore::set(&mut base, b"a", b"1");
    {
        let mut cache = StorageTransaction::new(&base);
        cache.set(b"a", b"2");
        cache.set(b"b", b"3");
    }
    assert_eq!(KvStore::get(&base, b"a"), Some(b"1".to_vec()));
    assert_eq!(KvStore::get(&base, b"b"), None);
}

#[test]
fn empty_log_commits_nothing() {
    let mut base = MemoryStorage::new();
    KvStore::set(&mut base, b"k", b"v");
    let log = RepLog::new();
    assert_eq!(log.len(), 0);
    log.commit(&mut base);
    assert_eq!(KvStore::get(&base, b"k"), Some(b"v".to_vec()));
}

#[test]
fn nested_caches_commit_in_turn() {
    let mut base = MemoryStorage::new();
    let outer_log = {
        let mut outer = StorageTransaction::new(&base);
        outer.set(b"x", b"1");
        let inner_log = {
            let mut inner = StorageTransaction::new(&outer);
            inner.set(b"y", b"2");
            assert_eq!(inner.get(b"x"), Some(b"1".to_vec()));
            inner.prepare()
        };
        inner_log.commit(&mut outer);
        assert_eq!(outer.get(b"y"), Some(b"2".to_vec()));
        outer.prepare()
    };
    outer_log.commit(&mut base);
    assert_eq!(KvStore::get(&base, b"x"), Some(b"1".to_vec()));
    assert_eq!(KvStore::get(&base, b"y"), Some(b"2".to_vec()));
}

#[test]
fn slice_eq_compares_bytes() {
    assert!(slice_eq(b"abc", b"abc"));
    assert!(!slice_eq(b"abc", b"abd"));
    assert!(!slice_eq(b"ab", b"abc"));
    assert!(slice_eq(b"", b""));
}
