use usage_tracking::{
    CounterMap, FunctionUsageStats, FunctionUsageTracker, StorageCallTracker, StorageUsageTracker,
};

fn map_of(entries: &[(&str, u64)]) -> CounterMap {
    let mut map = CounterMap::new();
    for (name, count) in entries {
        map.add_count(name.to_string(), *count);
    }
    map
}

#[test]
fn a_new_tracker_has_tracked_nothing() {
    assert_eq!(FunctionUsageTracker::new().gather_user_stats(), FunctionUsageStats::default());
}

#[test]
fn vector_ingress_is_database_ingress_too() {
    let mut tracker = FunctionUsageTracker::new();
    tracker.track_vector_ingress_size("t".to_string(), 100, false);
    let stats = tracker.gather_user_stats();
    assert_eq!(stats.database_ingress_size.get("t"), 100);
    assert_eq!(stats.vector_ingress_size.get("t"), 100);
    assert_eq!(stats.database_ingress_size, map_of(&[("t", 100)]));
    assert_eq!(stats.vector_ingress_size, map_of(&[("t", 100)]));
    assert_eq!(stats.database_egress_size.len(), 0);
    assert_eq!(stats.vector_egress_size.len(), 0);
}

#[test]
fn vector_egress_is_database_egress_too() {
    let mut tracker = FunctionUsageTracker::new();
    tracker.track_database_egress_size("t".to_string(), 5, false);
    tracker.track_vector_egress_size("t".to_string(), 30, false);
    let stats = tracker.gather_user_stats();
    assert_eq!(stats.database_egress_size, map_of(&[("t", 35)]));
    assert_eq!(stats.vector_egress_size, map_of(&[("t", 30)]));
    assert_eq!(stats.database_ingress_size.len(), 0);
    assert_eq!(stats.vector_ingress_size.len(), 0);
}

#[test]
fn database_bandwidth_is_no_vector_bandwidth() {
    let mut tracker = FunctionUsageTracker::new();
    tracker.track_database_ingress_size("t".to_string(), 7, false);
    tracker.track_database_ingress_size("t".to_string(), 3, false);
    tracker.track_database_egress_size("u".to_string(), 4, false);
    let stats = tracker.gather_user_stats();
    assert_eq!(stats.database_ingress_size, map_of(&[("t", 10)]));
    assert_eq!(stats.database_egress_size, map_of(&[("u", 4)]));
    assert_eq!(stats.vector_ingress_size.len(), 0);
    assert_eq!(stats.vector_egress_size.len(), 0);
}

#[test]
fn skip_logging_leaves_all_counters_as_they_were() {
    let mut tracker = FunctionUsageTracker::new();
    tracker.track_database_ingress_size("t".to_string(), 7, false);
    tracker.track_vector_egress_size("t".to_string(), 2, false);
    let before = tracker.stats().clone();
    tracker.track_database_ingress_size("t".to_string(), 100, true);
    tracker.track_database_egress_size("t".to_string(), 100, true);
    tracker.track_vector_ingress_size("t".to_string(), 100, true);
    tracker.track_vector_egress_size("t".to_string(), 100, true);
    tracker.track_database_ingress_size("other".to_string(), u64::MAX, true);
    assert_eq!(tracker.gather_user_stats(), before);
}

#[test]
fn skip_logging_on_a_new_tracker_tracks_nothing() {
    let mut tracker = FunctionUsageTracker::new();
    tracker.track_vector_ingress_size("t".to_string(), 100, true);
    tracker.track_database_egress_size("t".to_string(), 100, true);
    assert_eq!(tracker.gather_user_stats(), FunctionUsageStats::default());
}

#[test]
fn tracking_zero_bytes_names_the_table() {
    let mut tracker = FunctionUsageTracker::new();
    tracker.track_database_ingress_size("t".to_string(), 0, false);
    let stats = tracker.gather_user_stats();
    assert!(stats.database_ingress_size.contains_key("t"));
    assert_eq!(stats.database_ingress_size.get("t"), 0);
}

#[test]
fn end_to_end_scenario() {
    let mut tracker = FunctionUsageTracker::new();
    tracker.track_database_ingress_size("users".to_string(), 50, false);
    let emitted = tracker.track_storage_call("getUrl").track_storage_ingress_size(200);
    assert!(emitted.is_empty());
    tracker.track_vector_egress_size("docs".to_string(), 30, false);
    let stats = tracker.gather_user_stats();
    assert_eq!(stats.database_ingress_size, map_of(&[("users", 50)]));
    assert_eq!(stats.storage_calls, map_of(&[("getUrl", 1)]));
    assert_eq!(stats.storage_ingress_size, 200);
    assert_eq!(stats.database_egress_size, map_of(&[("docs", 30)]));
    assert_eq!(stats.vector_egress_size, map_of(&[("docs", 30)]));
    assert_eq!(stats.storage_egress_size, 0);
    assert_eq!(stats.vector_ingress_size.len(), 0);
}

#[test]
fn storage_calls_are_counted_by_api() {
    let mut tracker = FunctionUsageTracker::new();
    tracker.track_storage_call("store").track_storage_ingress_size(10);
    let call = tracker.track_storage_call("store");
    call.track_storage_egress_size(1);
    call.track_storage_egress_size(2);
    tracker.track_storage_call("getUrl");
    let stats = tracker.gather_user_stats();
    assert_eq!(stats.storage_calls, map_of(&[("getUrl", 1), ("store", 2)]));
    assert_eq!(stats.storage_ingress_size, 10);
    assert_eq!(stats.storage_egress_size, 3);
}

#[test]
fn the_tracker_tracks_storage_bytes_itself() {
    let mut tracker = FunctionUsageTracker::new();
    assert!(tracker.track_storage_ingress_size(5).is_empty());
    assert!(tracker.track_storage_egress_size(6).is_empty());
    let stats = tracker.gather_user_stats();
    assert_eq!(stats.storage_ingress_size, 5);
    assert_eq!(stats.storage_egress_size, 6);
    assert_eq!(stats.storage_calls.len(), 0);
}

#[test]
fn add_merges_usage_into_the_tracker() {
    let mut tracker = FunctionUsageTracker::new();
    tracker.track_database_ingress_size("users".to_string(), 50, false);
    let mut other = FunctionUsageTracker::new();
    other.track_database_ingress_size("users".to_string(), 1, false);
    other.track_vector_egress_size("docs".to_string(), 30, false);
    other.track_storage_call("getUrl").track_storage_egress_size(9);
    tracker.add(other.gather_user_stats());
    let stats = tracker.gather_user_stats();
    assert_eq!(stats.database_ingress_size, map_of(&[("users", 51)]));
    assert_eq!(stats.database_egress_size, map_of(&[("docs", 30)]));
    assert_eq!(stats.vector_egress_size, map_of(&[("docs", 30)]));
    assert_eq!(stats.storage_calls, map_of(&[("getUrl", 1)]));
    assert_eq!(stats.storage_egress_size, 9);
}

#[test]
fn vector_bandwidth_stays_within_database_bandwidth() {
    let mut tracker = FunctionUsageTracker::new();
    tracker.track_vector_ingress_size("a".to_string(), 3, false);
    tracker.track_database_ingress_size("a".to_string(), 4, false);
    tracker.track_vector_egress_size("b".to_string(), 5, false);
    tracker.track_vector_ingress_size("b".to_string(), 6, false);
    let stats = tracker.gather_user_stats();
    for table in ["a", "b", "c"] {
        assert!(stats.vector_ingress_size.get(table) <= stats.database_ingress_size.get(table));
        assert!(stats.vector_egress_size.get(table) <= stats.database_egress_size.get(table));
    }
    assert_eq!(stats.database_ingress_size, map_of(&[("a", 7), ("b", 6)]));
    assert_eq!(stats.vector_ingress_size, map_of(&[("a", 3), ("b", 6)]));
}
