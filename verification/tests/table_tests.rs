use pageinfo_rs::table::StringMap;
use pageinfo_rs::text::decimal;

#[test]
fn new_map_is_empty() {
    let map: StringMap<usize> = StringMap::new();
    assert!(map.is_empty());
    assert_eq!(map.len(), 0);
    assert_eq!(map.get("a"), None);
    assert!(!map.contains_key("a"));
    assert_eq!(map.position("a"), None);
}

#[test]
fn insert_adds_or_replaces() {
    let mut map: StringMap<usize> = StringMap::new();
    map.insert("b".to_string(), 1);
    map.insert("a".to_string(), 2);
    map.insert("b".to_string(), 3);
    assert_eq!(map.len(), 2);
    assert!(!map.is_empty());
    assert_eq!(map.get("b"), Some(&3));
    assert_eq!(map.get("a"), Some(&2));
    assert_eq!(map.get("c"), None);
    assert_eq!(map.get("B"), None);
    assert!(map.contains_key("a"));
    assert!(!map.contains_key(""));
    assert_eq!(map.position("b"), Some(0));
    assert_eq!(map.position("a"), Some(1));
    assert_eq!(map.key_at(0), "b");
    assert_eq!(*map.value_at(0), 3);
    assert_eq!(map.key_at(1), "a");
    assert_eq!(*map.value_at(1), 2);
}

#[test]
fn pairs_are_stored_in_order_of_first_arrival() {
    let pairs = vec![
        ("x".to_string(), "1".to_string()),
        ("y".to_string(), "2".to_string()),
        ("x".to_string(), "3".to_string()),
    ];
    let map = StringMap::from_pairs(&pairs);
    assert_eq!(map.len(), 2);
    assert_eq!(map.key_at(0), "x");
    assert_eq!(map.value_at(0), "3");
    assert_eq!(map.key_at(1), "y");
    assert_eq!(map.value_at(1), "2");
}

#[test]
fn clone_keeps_keys_and_values() {
    let mut map: StringMap<String> = StringMap::new();
    map.insert("k".to_string(), "v".to_string());
    map.insert("l".to_string(), "w".to_string());
    let copy = map.clone();
    assert_eq!(copy.len(), 2);
    assert_eq!(copy.key_at(0), "k");
    assert_eq!(copy.get("k"), Some(&"v".to_string()));
    assert_eq!(copy.get("l"), Some(&"w".to_string()));
}

#[test]
fn numbers_are_written_in_decimal() {
    assert_eq!(decimal(0), "0");
    assert_eq!(decimal(7), "7");
    assert_eq!(decimal(10), "10");
    assert_eq!(decimal(404), "404");
    assert_eq!(decimal(1_000_000), "1000000");
    assert_eq!(decimal(u64::MAX), "18446744073709551615");
}

#[test]
fn increment_counts_from_one() {
    let mut counts: StringMap<usize> = StringMap::new();
    counts.increment("script");
    counts.increment("image");
    counts.increment("script");
    counts.increment("script");
    assert_eq!(counts.len(), 2);
    assert_eq!(counts.get("script"), Some(&3));
    assert_eq!(counts.get("image"), Some(&1));
    assert_eq!(counts.key_at(0), "script");
    assert_eq!(counts.key_at(1), "image");
}

#[test]
fn duplicate_keeps_every_entry() {
    let mut map: StringMap<String> = StringMap::new();
    map.insert("b".to_string(), "2".to_string());
    map.insert("a".to_string(), "1".to_string());
    let copy = map.duplicate();
    assert_eq!(copy.len(), 2);
    assert_eq!(copy.key_at(0), "b");
    assert_eq!(copy.value_at(0), "2");
    assert_eq!(copy.key_at(1), "a");
    assert_eq!(copy.value_at(1), "1");
    assert!(StringMap::<String>::new().duplicate().is_empty());
}
