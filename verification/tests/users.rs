use yt_sub::store::{KvWrapper, MemoryStore, StoreError};
use yt_sub::text::{join, split};
use yt_sub::users::{ids_in, UserError};
use yt_sub::{Timestamp, User};

#[test]
fn users_test_add_list_users() {
    let mut kv = MemoryStore::new();

    let before = User::list(&kv).unwrap();
    assert_eq!(before.len(), 0);

    let new_user = User { api_key: "test".to_string() };

    User::save(&new_user, &mut kv).unwrap();

    let after = User::list(&kv).unwrap();

    assert_eq!(after.len(), 1);
    assert!(after[0] == new_user);
}

#[test]
fn users_test_last_run_at() {
    let user = User::new("test");
    let mut kv = MemoryStore::new();

    assert_eq!(user.last_run_at(&kv).unwrap(), None);

    user.touch_last_run_at(&mut kv).unwrap();

    assert!(user.last_run_at(&kv).unwrap().is_some());
    // 2024-01-01T00:00:00Z: the present is later.
    assert!(user.last_run_at(&kv).unwrap().unwrap().after(&Timestamp::new(1_704_067_200, 0)));
}

#[test]
fn the_list_is_kept_under_one_key_with_commas() {
    let mut kv = MemoryStore::new();
    User::save(&User::new("a"), &mut kv).unwrap();
    assert_eq!(kv.get_val("user_ids").unwrap(), Some("a".to_string()));
    User::save(&User::new("b"), &mut kv).unwrap();
    User::save(&User::new("c"), &mut kv).unwrap();
    assert_eq!(kv.get_val("user_ids").unwrap(), Some("a,b,c".to_string()));
    let keys: Vec<String> = User::list(&kv).unwrap().into_iter().map(|u| u.api_key).collect();
    assert_eq!(keys, vec!["a", "b", "c"]);
}

#[test]
fn an_account_is_listed_once() {
    let mut kv = MemoryStore::new();
    User::save(&User::new("a"), &mut kv).unwrap();
    let e = User::save(&User::new("a"), &mut kv).unwrap_err();
    assert!(matches!(e, UserError::AlreadyExists(_)));
    assert_eq!(e.message(), "Already exists user with API key: a");
    assert_eq!(kv.get_val("user_ids").unwrap(), Some("a".to_string()));
}

#[test]
fn empty_parts_of_the_list_name_no_account() {
    let mut kv = MemoryStore::new();
    kv.put_val("user_ids", ",a,,b,").unwrap();
    let keys: Vec<String> = User::list(&kv).unwrap().into_iter().map(|u| u.api_key).collect();
    assert_eq!(keys, vec!["a", "b"]);
    assert_eq!(ids_in(""), Vec::<String>::new());
    assert_eq!(ids_in(",,,"), Vec::<String>::new());
    assert_eq!(ids_in("one"), vec!["one"]);
}

#[test]
fn an_account_is_taken_off_the_list() {
    let mut kv = MemoryStore::new();
    User::remove(&User::new("a"), &mut kv).unwrap();
    assert_eq!(kv.get_val("user_ids").unwrap(), None);
    kv.put_val("user_ids", "a,b,c,b").unwrap();
    User::remove(&User::new("b"), &mut kv).unwrap();
    assert_eq!(kv.get_val("user_ids").unwrap(), Some("a,c".to_string()));
    User::remove(&User::new("z"), &mut kv).unwrap();
    assert_eq!(kv.get_val("user_ids").unwrap(), Some("a,c".to_string()));
}

#[test]
fn the_marker_is_kept_as_a_date_under_the_key_of_the_account() {
    let user = User::new("abc");
    assert_eq!(user.last_run_at_key(), "last_run_at_abc");
    let mut kv = MemoryStore::new();
    user.set_last_run_at(&mut kv, Timestamp::new(0, 0)).unwrap();
    assert_eq!(
        kv.get_val("last_run_at_abc").unwrap(),
        Some("1970-01-01T00:00:00+00:00".to_string())
    );
    assert_eq!(User::new("other").last_run_at(&kv).unwrap(), None);
}

#[test]
fn a_marker_that_is_no_date_is_reported() {
    let user = User::new("abc");
    let mut kv = MemoryStore::new();
    kv.put_val("last_run_at_abc", "soon").unwrap();
    match user.last_run_at(&kv) {
        Err(UserError::BadMarker(text)) => assert_eq!(text, "soon"),
        other => panic!("unexpected: {other:?}"),
    }
}

#[test]
fn an_instant_without_a_date_is_not_stored() {
    let user = User::new("abc");
    let mut kv = MemoryStore::new();
    let e = user.set_last_run_at(&mut kv, Timestamp::new(i64::MAX, 0)).unwrap_err();
    assert!(matches!(e, UserError::OutOfRange));
    assert_eq!(kv.get_val("last_run_at_abc").unwrap(), None);
}

#[test]
fn splitting_gives_one_part_more_than_separators() {
    assert_eq!(split("", ','), vec![""]);
    assert_eq!(split("a", ','), vec!["a"]);
    assert_eq!(split("a,b", ','), vec!["a", "b"]);
    assert_eq!(split(",a,,b,", ','), vec!["", "a", "", "b", ""]);
    assert_eq!(split("a b", ','), vec!["a b"]);
    assert_eq!(split("ä,ö", ','), vec!["ä", "ö"]);
}

#[test]
fn joining_puts_the_separator_between_neighbours() {
    assert_eq!(join(&vec![], ","), "");
    assert_eq!(join(&vec!["a".to_string()], ","), "a");
    assert_eq!(join(&vec!["a".to_string(), "b".to_string(), "c".to_string()], ", "), "a, b, c");
    assert_eq!(join(&vec![String::new(), String::new()], "-"), "-");
}

#[test]
fn a_marker_that_was_set_is_read_back() {
    let user = User::new("abc");
    let mut kv = MemoryStore::new();
    let at = Timestamp::new(1_714_557_600, 123_000_000);
    user.set_last_run_at(&mut kv, at).unwrap();
    assert_eq!(user.last_run_at(&kv).unwrap(), Some(at));
    let later = Timestamp::new(1_714_557_601, 0);
    user.set_last_run_at(&mut kv, later).unwrap();
    assert_eq!(user.last_run_at(&kv).unwrap(), Some(later));
}

#[test]
fn a_read_of_the_list_names_the_accounts() {
    let keys = |found| -> Vec<String> {
        User::listed(found).unwrap().into_iter().map(|u| u.api_key).collect()
    };
    assert_eq!(keys(Ok(None)), Vec::<String>::new());
    assert_eq!(keys(Ok(Some(String::new()))), Vec::<String>::new());
    assert_eq!(keys(Ok(Some("a".to_string()))), vec!["a"]);
    assert_eq!(keys(Ok(Some("b,,a,".to_string()))), vec!["b", "a"]);
}

#[test]
fn a_failed_read_of_the_list_is_handed_on() {
    let e = User::listed(Err(StoreError { reason: "store is down".to_string() })).unwrap_err();
    assert_eq!(e.reason, "store is down");
    let e = User::list_without(&User::new("a"), Err(StoreError { reason: "gone".to_string() }))
        .unwrap_err();
    assert_eq!(e.reason, "gone");
}

#[test]
fn the_list_is_written_without_the_removed_account() {
    let user = User::new("b");
    assert_eq!(User::list_without(&user, Ok(None)).unwrap(), None);
    assert_eq!(
        User::list_without(&user, Ok(Some("a,b,c,b".to_string()))).unwrap(),
        Some("a,c".to_string())
    );
    assert_eq!(
        User::list_without(&user, Ok(Some("b".to_string()))).unwrap(),
        Some(String::new())
    );
    assert_eq!(
        User::list_without(&user, Ok(Some(",a,,c,".to_string()))).unwrap(),
        Some("a,c".to_string())
    );
    assert_eq!(
        User::list_without(&user, Ok(Some("bb,ab".to_string()))).unwrap(),
        Some("bb,ab".to_string())
    );
}

#[test]
fn a_new_store_holds_nothing() {
    let kv = MemoryStore::new();
    assert!(kv.pairs.is_empty());
    assert_eq!(kv.get_val("user_ids").unwrap(), None);
    assert_eq!(kv.get_val("").unwrap(), None);
    assert!(User::list(&kv).unwrap().is_empty());
}

#[test]
fn the_list_is_written_with_the_new_account() {
    let user = User::new("c");
    assert_eq!(User::list_with(&user, Ok(None)).unwrap(), "c");
    assert_eq!(User::list_with(&user, Ok(Some(String::new()))).unwrap(), "c");
    assert_eq!(User::list_with(&user, Ok(Some("a,b".to_string()))).unwrap(), "a,b,c");
    assert_eq!(User::list_with(&user, Ok(Some(",a,,b,".to_string()))).unwrap(), "a,b,c");
    match User::list_with(&user, Ok(Some("a,c,b".to_string()))) {
        Err(UserError::AlreadyExists(key)) => assert_eq!(key, "c"),
        other => panic!("unexpected: {other:?}"),
    }
    match User::list_with(&user, Err(StoreError { reason: "down".to_string() })) {
        Err(UserError::Store(e)) => assert_eq!(e.reason, "down"),
        other => panic!("unexpected: {other:?}"),
    }
}

#[test]
fn a_read_of_the_marker_gives_the_instant() {
    assert_eq!(User::marker_read(Ok(None)).unwrap(), None);
    assert_eq!(
        User::marker_read(Ok(Some("2024-05-01T10:00:00+00:00".to_string()))).unwrap(),
        Some(Timestamp::new(1_714_557_600, 0))
    );
    match User::marker_read(Ok(Some("soon".to_string()))) {
        Err(UserError::BadMarker(text)) => assert_eq!(text, "soon"),
        other => panic!("unexpected: {other:?}"),
    }
    match User::marker_read(Err(StoreError { reason: "down".to_string() })) {
        Err(UserError::Store(e)) => assert_eq!(e.reason, "down"),
        other => panic!("unexpected: {other:?}"),
    }
}
