use accesskit_c::collection::OwnedArray;
use accesskit_c::handle::HandleStore;
use accesskit_c::optional::{decode, encode, OptValue};

#[test]
fn handle_round_trip_returns_value() {
    let mut store: HandleStore<u64> = HandleStore::new();
    let h = store.to_handle(42);
    assert!(h != 0);
    let back = store.release(h);
    assert_eq!(back, 42);
}

#[test]
fn handle_fresh_handles_are_distinct() {
    let mut store: HandleStore<u64> = HandleStore::new();
    let h1 = store.to_handle(1);
    let h2 = store.to_handle(2);
    assert!(h1 != h2);
    assert_eq!(store.release(h1), 1);
    assert_eq!(store.release(h2), 2);
}

#[test]
fn handle_release_leaves_others_live() {
    let mut store: HandleStore<String> = HandleStore::new();
    let h1 = store.to_handle(String::from("one"));
    let h2 = store.to_handle(String::from("two"));
    let _ = store.release(h1);
    assert_eq!(store.from_handle(h2), "two");
    assert_eq!(store.release(h2), "two");
}

#[test]
fn handle_nullable_none_is_null() {
    let mut store: HandleStore<u64> = HandleStore::new();
    let h = store.to_nullable_handle(None);
    assert_eq!(h, 0);
    let h2 = store.to_nullable_handle(Some(7));
    assert!(h2 != 0);
    assert_eq!(store.release_nullable(h2), Some(7));
    assert_eq!(store.release_nullable(0), None);
}

#[test]
fn handle_replace_swaps_value() {
    let mut store: HandleStore<u64> = HandleStore::new();
    let h = store.to_handle(5);
    let prev = store.replace(h, 6);
    assert_eq!(prev, 5);
    assert_eq!(*store.from_handle(h), 6);
    assert_eq!(store.release(h), 6);
}

#[test]
fn optional_round_trip_some() {
    let enc = encode(Some(9u32), 0);
    assert!(enc.has_value);
    assert_eq!(enc.value, 9);
    assert_eq!(decode(enc), Some(9));
}

#[test]
fn optional_round_trip_none() {
    let enc = encode(None::<u32>, 0);
    assert!(!enc.has_value);
    assert_eq!(decode(enc), None);
}

#[test]
fn optional_absent_payload_ignored() {
    let a = OptValue { has_value: false, value: 123u64 };
    let b = OptValue { has_value: false, value: 456u64 };
    assert_eq!(decode(a), None);
    assert_eq!(decode(b), None);
}

#[test]
fn collection_round_trip_preserves_order() {
    let values: Vec<u64> = vec![3, 1, 4, 1, 5, 9, 2, 6];
    let arr = OwnedArray::from_vec(values.clone());
    assert_eq!(arr.length(), 8);
    assert_eq!(*arr.get(0), 3);
    assert_eq!(*arr.get(7), 6);
    let back = arr.into_vec();
    assert_eq!(back, values);
}

#[test]
fn collection_empty() {
    let arr: OwnedArray<u64> = OwnedArray::from_vec(Vec::new());
    assert_eq!(arr.length(), 0);
    arr.free();
}
