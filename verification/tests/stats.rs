use usage_tracking::{AggregatedFunctionUsageStats, CounterMap, FunctionUsageStats};

fn map_of(entries: &[(&str, u64)]) -> CounterMap {
    let mut map = CounterMap::new();
    for (name, count) in entries {
        map.add_count(name.to_string(), *count);
    }
    map
}

fn usage_a() -> FunctionUsageStats {
    FunctionUsageStats {
        storage_calls: map_of(&[("getUrl", 1), ("store", 2)]),
        storage_ingress_size: 100,
        storage_egress_size: 200,
        database_ingress_size: map_of(&[("users", 50), ("docs", 7)]),
        database_egress_size: map_of(&[("users", 5)]),
        vector_ingress_size: map_of(&[("docs", 7)]),
        vector_egress_size: CounterMap::new(),
    }
}

fn usage_b() -> FunctionUsageStats {
    FunctionUsageStats {
        storage_calls: map_of(&[("store", 3), ("delete", 1)]),
        storage_ingress_size: 1,
        storage_egress_size: 2,
        database_ingress_size: map_of(&[("docs", 3)]),
        database_egress_size: map_of(&[("docs", 30), ("users", 1)]),
        vector_ingress_size: CounterMap::new(),
        vector_egress_size: map_of(&[("docs", 30)]),
    }
}

fn usage_c() -> FunctionUsageStats {
    FunctionUsageStats {
        storage_calls: map_of(&[("getUrl", 4)]),
        storage_ingress_size: 0,
        storage_egress_size: 9,
        database_ingress_size: map_of(&[("messages", 11)]),
        database_egress_size: CounterMap::new(),
        vector_ingress_size: map_of(&[("docs", 0)]),
        vector_egress_size: map_of(&[("docs", 1)]),
    }
}

fn merged(mut one: FunctionUsageStats, other: FunctionUsageStats) -> FunctionUsageStats {
    one.merge(other);
    one
}

#[test]
fn default_usage_has_no_counters() {
    let stats = FunctionUsageStats::default();
    assert_eq!(stats.storage_calls.len(), 0);
    assert_eq!(stats.storage_ingress_size, 0);
    assert_eq!(stats.storage_egress_size, 0);
    assert_eq!(stats.database_ingress_size.len(), 0);
    assert_eq!(stats.database_egress_size.len(), 0);
    assert_eq!(stats.vector_ingress_size.len(), 0);
    assert_eq!(stats.vector_egress_size.len(), 0);
}

#[test]
fn merge_adds_numbers_and_maps() {
    let stats = merged(usage_a(), usage_b());
    let expected = FunctionUsageStats {
        storage_calls: map_of(&[("delete", 1), ("getUrl", 1), ("store", 5)]),
        storage_ingress_size: 101,
        storage_egress_size: 202,
        database_ingress_size: map_of(&[("docs", 10), ("users", 50)]),
        database_egress_size: map_of(&[("docs", 30), ("users", 6)]),
        vector_ingress_size: map_of(&[("docs", 7)]),
        vector_egress_size: map_of(&[("docs", 30)]),
    };
    assert_eq!(stats, expected);
}

#[test]
fn merge_is_commutative() {
    assert_eq!(merged(usage_a(), usage_b()), merged(usage_b(), usage_a()));
    assert_eq!(merged(usage_a(), usage_c()), merged(usage_c(), usage_a()));
}

#[test]
fn merge_is_associative() {
    assert_eq!(
        merged(merged(usage_a(), usage_b()), usage_c()),
        merged(usage_a(), merged(usage_b(), usage_c()))
    );
}

#[test]
fn merge_with_default_changes_nothing() {
    assert_eq!(merged(usage_a(), FunctionUsageStats::default()), usage_a());
    assert_eq!(merged(FunctionUsageStats::default(), usage_a()), usage_a());
    assert_eq!(
        merged(FunctionUsageStats::default(), FunctionUsageStats::default()),
        FunctionUsageStats::default()
    );
}

#[test]
fn merge_keeps_a_name_with_a_count_of_zero() {
    let stats = merged(FunctionUsageStats::default(), usage_c());
    assert!(stats.vector_ingress_size.contains_key("docs"));
    assert_eq!(stats.vector_ingress_size.get("docs"), 0);
}

#[test]
fn can_merge_tells_when_a_counter_would_not_fit() {
    let mut large = FunctionUsageStats::default();
    large.storage_ingress_size = u64::MAX;
    assert!(large.can_merge(&FunctionUsageStats::default()));
    assert!(!large.can_merge(&usage_a()));
    let mut large = FunctionUsageStats::default();
    large.database_egress_size = map_of(&[("users", u64::MAX - 4)]);
    assert!(!large.can_merge(&usage_a()));
    assert!(large.can_merge(&usage_c()));
    assert!(usage_a().can_merge(&usage_b()));
}

#[test]
fn aggregate_sums_each_map() {
    let mut stats = FunctionUsageStats::default();
    stats.database_ingress_size = map_of(&[("a", 10), ("b", 20)]);
    stats.database_egress_size = map_of(&[("a", 5)]);
    let totals = stats.aggregate();
    assert_eq!(totals.database_write_bytes, 30);
    assert_eq!(totals.database_read_bytes, 5);
    assert_eq!(totals.storage_read_bytes, 0);
    assert_eq!(totals.storage_write_bytes, 0);
    assert_eq!(totals.vector_index_read_bytes, 0);
    assert_eq!(totals.vector_index_write_bytes, 0);
}

#[test]
fn aggregate_keeps_reads_and_writes_apart() {
    let totals = merged(merged(usage_a(), usage_b()), usage_c()).aggregate();
    assert_eq!(
        totals,
        AggregatedFunctionUsageStats {
            database_read_bytes: 36,
            database_write_bytes: 71,
            storage_read_bytes: 211,
            storage_write_bytes: 101,
            vector_index_read_bytes: 31,
            vector_index_write_bytes: 7,
        }
    );
}

#[test]
fn aggregate_of_default_usage_is_default() {
    assert_eq!(
        FunctionUsageStats::default().aggregate(),
        AggregatedFunctionUsageStats::default()
    );
    assert_eq!(AggregatedFunctionUsageStats::default().database_read_bytes, 0);
}

#[test]
fn checked_aggregate_tells_when_a_total_would_not_fit() {
    let mut stats = usage_a();
    assert_eq!(stats.checked_aggregate(), Some(stats.aggregate()));
    stats.vector_egress_size = map_of(&[("a", u64::MAX), ("b", 1)]);
    assert_eq!(stats.checked_aggregate(), None);
}

#[test]
fn a_clone_of_usage_is_equal_to_it() {
    assert_eq!(usage_a().clone(), usage_a());
    assert_ne!(usage_a(), usage_b());
}
