use yt_sub::store::{KvWrapper, MemoryStore};

#[test]
fn store_test_kv_wrapper() {
    let mut kv = MemoryStore::new();

    let empty = kv.get_val("test").unwrap();
    assert!(empty.is_none());

    kv.put_val("test_key", "test_val").unwrap();

    let present = kv.get_val("test_key").unwrap();
    assert_eq!(present, Some("test_val".to_string()));
}

#[test]
fn registration_test_kv_wrapper() {
    let mut kv = MemoryStore::new();

    let empty = kv.get_val("test").unwrap();
    assert!(empty.is_none());

    kv.put_val("test_key", "test_val").unwrap();

    let present = kv.get_val("test_key").unwrap();
    assert_eq!(present, Some("test_val".to_string()));
}

#[test]
fn a_later_value_takes_the_place_of_an_earlier_one() {
    let mut kv = MemoryStore::new();
    kv.put_val("k", "one").unwrap();
    kv.put_val("other", "x").unwrap();
    kv.put_val("k", "two").unwrap();
    assert_eq!(kv.get_val("k").unwrap(), Some("two".to_string()));
    assert_eq!(kv.get_val("other").unwrap(), Some("x".to_string()));
    assert_eq!(kv.pairs.len(), 2);
}

#[test]
fn a_deleted_key_is_gone() {
    let mut kv = MemoryStore::new();
    kv.put_val("k", "one").unwrap();
    kv.put_val("other", "x").unwrap();
    kv.delete_val("k").unwrap();
    assert_eq!(kv.get_val("k").unwrap(), None);
    assert_eq!(kv.get_val("other").unwrap(), Some("x".to_string()));
    kv.delete_val("never there").unwrap();
    assert_eq!(kv.get_val("other").unwrap(), Some("x".to_string()));
}

#[test]
fn keys_are_told_apart_exactly() {
    let mut kv = MemoryStore::new();
    kv.put_val("key", "a").unwrap();
    kv.put_val("Key", "b").unwrap();
    kv.put_val("", "c").unwrap();
    assert_eq!(kv.get_val("key").unwrap(), Some("a".to_string()));
    assert_eq!(kv.get_val("Key").unwrap(), Some("b".to_string()));
    assert_eq!(kv.get_val("").unwrap(), Some("c".to_string()));
    assert_eq!(kv.get_val("ke").unwrap(), None);
}
