use meep::store::MemStore;

#[test]
fn new_store_is_empty() {
    let store = MemStore::new();
    assert_eq!(store.count(), 0);
    assert!(!store.contains_id("aaaa"));
    assert!(store.find_by_id("aaaa").is_none());
}

#[test]
fn insert_then_find() {
    let mut store = MemStore::new();
    assert!(store.insert_if_absent(String::from("iVse"), String::from("fn main() {}")));
    assert_eq!(store.count(), 1);
    assert!(store.contains_id("iVse"));
    assert_eq!(
        store.find_by_id("iVse").cloned(),
        Some(String::from("fn main() {}"))
    );
}

#[test]
fn duplicate_insert_is_refused_and_keeps_the_first_record() {
    let mut store = MemStore::new();
    assert!(store.insert_if_absent(String::from("abcd"), String::from("first")));
    assert!(!store.insert_if_absent(String::from("abcd"), String::from("second")));
    assert_eq!(store.count(), 1);
    assert_eq!(store.find_by_id("abcd").cloned(), Some(String::from("first")));
}

#[test]
fn lookup_misses_do_not_alias_other_records() {
    let mut store = MemStore::new();
    assert!(store.insert_if_absent(String::from("aaaa"), String::from("one")));
    assert!(store.insert_if_absent(String::from("bbbb"), String::from("two")));
    assert_eq!(store.find_by_id("aaaa").cloned(), Some(String::from("one")));
    assert_eq!(store.find_by_id("bbbb").cloned(), Some(String::from("two")));
    assert!(store.find_by_id("cccc").is_none());
    assert_eq!(store.count(), 2);
}

#[test]
fn identifiers_are_case_sensitive() {
    let mut store = MemStore::new();
    assert!(store.insert_if_absent(String::from("AbCd"), String::from("upper")));
    assert!(!store.contains_id("abcd"));
    assert!(store.insert_if_absent(String::from("abcd"), String::from("lower")));
    assert_eq!(store.count(), 2);
}
