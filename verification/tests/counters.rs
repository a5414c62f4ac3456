use usage_tracking::counters::CounterMap;

fn counters(entries: &[(&str, u64)]) -> CounterMap {
    let mut map = CounterMap::new();
    for (name, count) in entries {
        map.add_count(name.to_string(), *count);
    }
    map
}

fn listed(map: &CounterMap) -> Vec<(String, u64)> {
    let mut entries = Vec::new();
    for i in 0..map.len() {
        entries.push((map.name_at(i).clone(), map.count_at(i)));
    }
    entries
}

#[test]
fn counter_map_counts_by_name() {
    let mut map = CounterMap::new();
    map.add_count("b".to_string(), 2);
    map.add_count("a".to_string(), 1);
    map.add_count("b".to_string(), 3);
    assert_eq!(map.len(), 2);
    assert_eq!(map.get("a"), 1);
    assert_eq!(map.get("b"), 5);
    assert_eq!(map.get("c"), 0);
    assert!(map.contains_key("a"));
    assert!(!map.contains_key("c"));
}

#[test]
fn a_new_counter_map_is_empty() {
    let map = CounterMap::new();
    assert_eq!(map.len(), 0);
    assert_eq!(map.get("a"), 0);
    assert!(!map.contains_key(""));
    assert_eq!(map.total(), 0);
    assert_eq!(map.checked_total(), Some(0));
}

#[test]
fn entries_are_listed_in_the_order_of_names() {
    let map = counters(&[("users", 1), ("docs", 2), ("", 3), ("zebra", 4), ("doc", 5), ("é", 6)]);
    assert_eq!(
        listed(&map),
        vec![
            ("".to_string(), 3),
            ("doc".to_string(), 5),
            ("docs".to_string(), 2),
            ("users".to_string(), 1),
            ("zebra".to_string(), 4),
            ("é".to_string(), 6),
        ]
    );
}

#[test]
fn a_name_counted_with_zero_stays() {
    let mut map = CounterMap::new();
    map.add_count("t".to_string(), 0);
    assert_eq!(map.len(), 1);
    assert!(map.contains_key("t"));
    assert_eq!(map.get("t"), 0);
    assert_ne!(map, CounterMap::new());
}

#[test]
fn add_count_reaches_the_largest_count() {
    let mut map = CounterMap::new();
    map.add_count("t".to_string(), u64::MAX - 1);
    map.add_count("t".to_string(), 1);
    assert_eq!(map.get("t"), u64::MAX);
}

#[test]
fn insert_replaces_a_count() {
    let mut map = counters(&[("a", 1), ("c", 3)]);
    map.insert("a".to_string(), 10);
    map.insert("b".to_string(), 20);
    assert_eq!(
        listed(&map),
        vec![("a".to_string(), 10), ("b".to_string(), 20), ("c".to_string(), 3)]
    );
}

#[test]
fn from_entries_keeps_the_last_of_a_name() {
    let map = CounterMap::from_entries(vec![
        ("b".to_string(), 1),
        ("a".to_string(), 2),
        ("b".to_string(), 3),
    ]);
    assert_eq!(listed(&map), vec![("a".to_string(), 2), ("b".to_string(), 3)]);
}

#[test]
fn counter_maps_merge_name_by_name() {
    let mut map = counters(&[("a", 1), ("b", 2)]);
    map.merge(&counters(&[("b", 10), ("c", 20)]));
    assert_eq!(
        listed(&map),
        vec![("a".to_string(), 1), ("b".to_string(), 12), ("c".to_string(), 20)]
    );
}

#[test]
fn can_merge_tells_when_a_sum_is_too_large() {
    let map = counters(&[("a", 1), ("b", u64::MAX - 1)]);
    assert!(map.can_merge(&counters(&[("a", u64::MAX - 1), ("b", 1), ("c", u64::MAX)])));
    assert!(!map.can_merge(&counters(&[("b", 2)])));
    assert!(!map.can_merge(&counters(&[("a", u64::MAX)])));
    assert!(map.can_merge(&CounterMap::new()));
}

#[test]
fn total_adds_all_counts() {
    let map = counters(&[("a", 10), ("b", 20), ("c", 12)]);
    assert_eq!(map.total(), 42);
    assert_eq!(map.checked_total(), Some(42));
}

#[test]
fn checked_total_tells_when_the_sum_is_too_large() {
    let map = counters(&[("a", u64::MAX), ("b", 1)]);
    assert_eq!(map.checked_total(), None);
    let map = counters(&[("a", u64::MAX - 1), ("b", 1)]);
    assert_eq!(map.checked_total(), Some(u64::MAX));
}

#[test]
fn counter_maps_are_equal_when_they_hold_the_same() {
    let one = counters(&[("a", 1), ("b", 2)]);
    let other = counters(&[("b", 2), ("a", 1)]);
    assert_eq!(one, other);
    assert_eq!(one.clone(), one);
    assert_ne!(one, counters(&[("a", 1), ("b", 3)]));
    assert_ne!(one, counters(&[("a", 1)]));
    assert_ne!(one, counters(&[("a", 1), ("c", 2)]));
}
