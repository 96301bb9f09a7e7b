use meep::allocator::{allocate, paste_url, random_key, MAX_DRAW_ATTEMPTS};
use meep::keyspace::{max_entries, needs_growth, KeySpaceState};
use meep::store::{step_after_insert, AllocStep, InsertOutcome, MemStore};

fn is_alphanumeric_ascii(c: char) -> bool {
    c.is_ascii_lowercase() || c.is_ascii_uppercase() || c.is_ascii_digit()
}

#[test]
fn allocated_id_has_charset_and_length() {
    let mut store = MemStore::new();
    let mut state = KeySpaceState::new();
    let id = allocate(&mut store, &mut state, &String::from("hello world")).unwrap();
    assert_eq!(id.chars().count(), 4);
    assert!(id.chars().all(is_alphanumeric_ascii));
    assert_eq!(state.length, 4);
}

#[test]
fn allocations_are_unique() {
    let mut store = MemStore::new();
    let mut state = KeySpaceState::new();
    let a = allocate(&mut store, &mut state, &String::from("first")).unwrap();
    let b = allocate(&mut store, &mut state, &String::from("second")).unwrap();
    assert_ne!(a, b);
    assert_eq!(store.count(), 2);
}

#[test]
fn many_allocations_all_distinct() {
    let mut store = MemStore::new();
    let mut state = KeySpaceState::new();
    let mut ids: Vec<String> = Vec::new();
    for i in 0..50 {
        let id = allocate(&mut store, &mut state, &format!("content {}", i)).unwrap();
        assert!(!ids.contains(&id));
        ids.push(id);
    }
    assert_eq!(store.count(), 50);
}

#[test]
fn allocate_stores_the_content() {
    let mut store = MemStore::new();
    let mut state = KeySpaceState::new();
    let id = allocate(&mut store, &mut state, &String::from("the paste body")).unwrap();
    let found = store.find_by_id(&id).cloned();
    assert_eq!(found, Some(String::from("the paste body")));
}

#[test]
fn empty_content_is_a_valid_paste() {
    let mut store = MemStore::new();
    let mut state = KeySpaceState::new();
    let id = allocate(&mut store, &mut state, &String::new()).unwrap();
    assert_eq!(store.find_by_id(&id).cloned(), Some(String::new()));
}

#[test]
fn low_occupancy_does_not_grow_length() {
    // 3,000,000 / 3 = 1,000,000 < 62^4 / 4 = 3,694,084: no growth.
    assert!(!needs_growth(3_000_000, 4));
    let mut store = MemStore::new();
    let mut state = KeySpaceState {
        occupied: 3_000_000,
        length: 4,
    };
    let id = allocate(&mut store, &mut state, &String::from("x")).unwrap();
    assert_eq!(state.length, 4);
    assert_eq!(id.chars().count(), 4);
    assert_eq!(state.occupied, 3_000_001);
}

#[test]
fn high_occupancy_grows_length() {
    // 15,000,000 / 3 = 5,000,000 >= 62^4 / 4 = 3,694,084: growth to 5.
    assert!(needs_growth(15_000_000, 4));
    let mut store = MemStore::new();
    let mut state = KeySpaceState {
        occupied: 15_000_000,
        length: 4,
    };
    let id = allocate(&mut store, &mut state, &String::from("x")).unwrap();
    assert_eq!(state.length, 5);
    assert_eq!(id.chars().count(), 5);
}

#[test]
fn key_length_never_shrinks() {
    let mut state = KeySpaceState {
        occupied: 15_000_000,
        length: 4,
    };
    let observed = state.choose_key_length(15_000_000);
    assert_eq!(observed, 5);
    // Occupancy below the threshold afterwards: the length stays put.
    let observed_later = state.choose_key_length(1_000);
    assert_eq!(observed_later, 5);
    assert!(observed_later >= observed);
}

#[test]
fn max_entries_at_length_four() {
    assert_eq!(max_entries(4), 14_776_336);
    assert_eq!(max_entries(0), 1);
    assert_eq!(max_entries(1), 62);
    assert_eq!(max_entries(10), 839_299_365_868_340_224);
}

#[test]
fn allocate_primes_the_cached_count() {
    let mut store = MemStore::new();
    assert!(store.insert_if_absent(String::from("aaaa"), String::from("1")));
    assert!(store.insert_if_absent(String::from("bbbb"), String::from("2")));
    let mut state = KeySpaceState::new();
    assert!(state.needs_priming());
    allocate(&mut store, &mut state, &String::from("3")).unwrap();
    assert_eq!(state.occupied, 3);
    assert!(!state.needs_priming());
}

#[test]
fn random_key_shape() {
    for len in [0u8, 1, 4, 8, 16] {
        let key = random_key(len);
        assert_eq!(key.chars().count(), len as usize);
        assert!(key.chars().all(is_alphanumeric_ascii));
    }
}

#[test]
fn random_keys_are_spread() {
    // 20 independent 8-symbol draws colliding is astronomically unlikely.
    let mut seen: Vec<String> = Vec::new();
    for _ in 0..20 {
        let key = random_key(8);
        assert!(!seen.contains(&key));
        seen.push(key);
    }
}

#[test]
fn paste_url_joins_root_and_id() {
    let url = paste_url("http://localhost:8000", "iVse");
    assert_eq!(url, "http://localhost:8000/iVse");
}

#[test]
fn retry_policy_per_outcome() {
    assert_eq!(step_after_insert(&InsertOutcome::Inserted), AllocStep::Done);
    assert_eq!(
        step_after_insert(&InsertOutcome::DuplicateId),
        AllocStep::Retry
    );
    assert_eq!(step_after_insert(&InsertOutcome::Failed), AllocStep::Abort);
}

#[test]
fn attempt_cap_is_generous() {
    assert!(MAX_DRAW_ATTEMPTS >= 16);
}
