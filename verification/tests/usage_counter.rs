use usage_tracking::bandwidth::{table_bandwidth, TableBandwidth};
use usage_tracking::{
    CallType, CounterMap, FunctionUsageStats, FunctionUsageTracker, ModuleEnvironment,
    StorageCallTracker, StorageUsageTracker, UdfIdentifier, UsageCounter, UsageEvent,
};

fn map_of(entries: &[(&str, u64)]) -> CounterMap {
    let mut map = CounterMap::new();
    for (name, count) in entries {
        map.add_count(name.to_string(), *count);
    }
    map
}

fn user_function() -> UdfIdentifier {
    UdfIdentifier::Function { path: "messages.js:send".to_string(), is_system: false }
}

fn storage_bandwidth(id: &str, udf_id: &str, ingress: u64, egress: u64) -> UsageEvent {
    UsageEvent::FunctionStorageBandwidth {
        id: id.to_string(),
        udf_id: udf_id.to_string(),
        ingress,
        egress,
    }
}

fn function_call(
    id: &str,
    udf_id: &str,
    udf_id_type: &str,
    tag: &str,
    memory_megabytes: u64,
    duration_millis: u64,
    environment: &str,
    is_tracked: bool,
) -> UsageEvent {
    UsageEvent::FunctionCall {
        id: id.to_string(),
        udf_id: udf_id.to_string(),
        udf_id_type: udf_id_type.to_string(),
        tag: tag.to_string(),
        memory_megabytes,
        duration_millis,
        environment: environment.to_string(),
        is_tracked,
    }
}

#[test]
fn a_call_without_usage_gives_two_events() {
    let events = UsageCounter::new().track_call(
        user_function(),
        "exec1".to_string(),
        CallType::Mutation,
        FunctionUsageStats::default(),
    );
    assert_eq!(
        events,
        vec![
            function_call("exec1", "messages.js:send", "function", "mutation", 0, 0, "isolate", true),
            storage_bandwidth("exec1", "messages.js:send", 0, 0),
        ]
    );
}

#[test]
fn the_events_of_a_call_come_in_their_order() {
    let stats = FunctionUsageStats {
        storage_calls: map_of(&[("store", 2), ("getUrl", 1)]),
        storage_ingress_size: 200,
        storage_egress_size: 3,
        database_ingress_size: map_of(&[("users", 50), ("docs", 7)]),
        database_egress_size: map_of(&[("messages", 9), ("docs", 30)]),
        vector_ingress_size: map_of(&[("docs", 7)]),
        vector_egress_size: map_of(&[("docs", 30)]),
    };
    let events = UsageCounter::new().track_call(
        user_function(),
        "exec1".to_string(),
        CallType::Action { env: ModuleEnvironment::Node, duration_millis: 1500, memory_in_mb: 512 },
        stats,
    );
    let id = "exec1".to_string();
    let udf_id = "messages.js:send".to_string();
    assert_eq!(
        events,
        vec![
            function_call("exec1", "messages.js:send", "function", "action", 512, 1500, "node", true),
            UsageEvent::FunctionStorageCalls {
                id: id.clone(),
                udf_id: udf_id.clone(),
                call: "getUrl".to_string(),
                count: 1,
            },
            UsageEvent::FunctionStorageCalls {
                id: id.clone(),
                udf_id: udf_id.clone(),
                call: "store".to_string(),
                count: 2,
            },
            storage_bandwidth("exec1", "messages.js:send", 200, 3),
            UsageEvent::DatabaseBandwidth {
                id: id.clone(),
                udf_id: udf_id.clone(),
                table_name: "docs".to_string(),
                ingress: 7,
                egress: 30,
            },
            UsageEvent::DatabaseBandwidth {
                id: id.clone(),
                udf_id: udf_id.clone(),
                table_name: "messages".to_string(),
                ingress: 0,
                egress: 9,
            },
            UsageEvent::DatabaseBandwidth {
                id: id.clone(),
                udf_id: udf_id.clone(),
                table_name: "users".to_string(),
                ingress: 50,
                egress: 0,
            },
            UsageEvent::VectorBandwidth {
                id: id.clone(),
                udf_id: udf_id.clone(),
                table_name: "docs".to_string(),
                ingress: 7,
                egress: 30,
            },
        ]
    );
}

#[test]
fn a_table_without_bandwidth_gives_no_event() {
    let mut stats = FunctionUsageStats::default();
    stats.database_ingress_size = map_of(&[("idle", 0), ("users", 1)]);
    stats.database_egress_size = map_of(&[("idle", 0)]);
    stats.vector_egress_size = map_of(&[("idle", 0)]);
    let events =
        UsageCounter::new().track_function_usage(user_function(), "exec1".to_string(), stats);
    assert_eq!(
        events,
        vec![
            storage_bandwidth("exec1", "messages.js:send", 0, 0),
            UsageEvent::DatabaseBandwidth {
                id: "exec1".to_string(),
                udf_id: "messages.js:send".to_string(),
                table_name: "users".to_string(),
                ingress: 1,
                egress: 0,
            },
        ]
    );
}

#[test]
fn a_storage_api_with_a_count_of_zero_gives_an_event() {
    let mut stats = FunctionUsageStats::default();
    stats.storage_calls = map_of(&[("store", 0)]);
    let events =
        UsageCounter::new().track_function_usage(user_function(), "exec1".to_string(), stats);
    assert_eq!(
        events,
        vec![
            UsageEvent::FunctionStorageCalls {
                id: "exec1".to_string(),
                udf_id: "messages.js:send".to_string(),
                call: "store".to_string(),
                count: 0,
            },
            storage_bandwidth("exec1", "messages.js:send", 0, 0),
        ]
    );
}

#[test]
fn usage_alone_gives_no_event_of_the_call() {
    let mut stats = FunctionUsageStats::default();
    stats.storage_egress_size = 4;
    let events =
        UsageCounter::new().track_function_usage(user_function(), "exec2".to_string(), stats);
    assert_eq!(events, vec![storage_bandwidth("exec2", "messages.js:send", 0, 4)]);
}

#[test]
fn events_are_appended_to_those_given() {
    let mut events = vec![UsageEvent::StorageCall { id: "x".to_string(), call: "store".to_string() }];
    UsageCounter::new()._track_function_usage(
        user_function(),
        FunctionUsageStats::default(),
        "exec3".to_string(),
        &mut events,
    );
    assert_eq!(
        events,
        vec![
            UsageEvent::StorageCall { id: "x".to_string(), call: "store".to_string() },
            storage_bandwidth("exec3", "messages.js:send", 0, 0),
        ]
    );
}

#[test]
fn calls_of_system_functions_are_not_counted_but_their_usage_is() {
    let mut stats = FunctionUsageStats::default();
    stats.database_egress_size = map_of(&[("_tables", 12)]);
    let events = UsageCounter::new().track_call(
        UdfIdentifier::Function { path: "_system/cli/tables".to_string(), is_system: true },
        "exec4".to_string(),
        CallType::UncachedQuery,
        stats,
    );
    assert_eq!(
        events,
        vec![
            function_call(
                "exec4",
                "_system/cli/tables",
                "function",
                "uncached_query",
                0,
                0,
                "isolate",
                false
            ),
            storage_bandwidth("exec4", "_system/cli/tables", 0, 0),
            UsageEvent::DatabaseBandwidth {
                id: "exec4".to_string(),
                udf_id: "_system/cli/tables".to_string(),
                table_name: "_tables".to_string(),
                ingress: 0,
                egress: 12,
            },
        ]
    );
}

#[test]
fn http_calls_are_counted_and_command_line_calls_are_not() {
    let http = UsageCounter::new().track_call(
        UdfIdentifier::Http { route: "GET /hello".to_string() },
        "exec5".to_string(),
        CallType::HttpAction { duration_millis: 20, memory_in_mb: 64 },
        FunctionUsageStats::default(),
    );
    assert_eq!(
        http[0],
        function_call("exec5", "GET /hello", "http", "http_action", 64, 20, "isolate", true)
    );
    let cli = UsageCounter::new().track_call(
        UdfIdentifier::Cli { command: "import".to_string() },
        "exec6".to_string(),
        CallType::Import,
        FunctionUsageStats::default(),
    );
    assert_eq!(cli[0], function_call("exec6", "import", "cli", "import", 0, 0, "isolate", false));
}

#[test]
fn each_kind_of_call_has_its_tag() {
    let action =
        CallType::Action { env: ModuleEnvironment::Isolate, duration_millis: 3, memory_in_mb: 4 };
    let http_action = CallType::HttpAction { duration_millis: 5, memory_in_mb: 6 };
    assert_eq!(action.tag(), "action");
    assert_eq!(http_action.tag(), "http_action");
    assert_eq!(CallType::Export.tag(), "export");
    assert_eq!(CallType::CachedQuery.tag(), "cached_query");
    assert_eq!(CallType::UncachedQuery.tag(), "uncached_query");
    assert_eq!(CallType::Mutation.tag(), "mutation");
    assert_eq!(CallType::Import.tag(), "import");
    assert_eq!(action.duration_millis(), 3);
    assert_eq!(action.memory_megabytes(), 4);
    assert_eq!(http_action.duration_millis(), 5);
    assert_eq!(http_action.memory_megabytes(), 6);
    assert_eq!(CallType::Export.duration_millis(), 0);
    assert_eq!(CallType::CachedQuery.memory_megabytes(), 0);
}

#[test]
fn only_an_action_says_where_it_ran() {
    let node =
        CallType::Action { env: ModuleEnvironment::Node, duration_millis: 0, memory_in_mb: 0 };
    let invalid =
        CallType::Action { env: ModuleEnvironment::Invalid, duration_millis: 0, memory_in_mb: 0 };
    assert_eq!(node.environment(), "node");
    assert_eq!(invalid.environment(), "invalid");
    assert_eq!(CallType::HttpAction { duration_millis: 0, memory_in_mb: 0 }.environment(), "isolate");
    assert_eq!(CallType::Mutation.environment(), "isolate");
    assert_eq!(ModuleEnvironment::Isolate.label(), "isolate");
}

#[test]
fn an_identifier_gives_its_name_and_kind() {
    let function = user_function();
    assert_eq!(function.udf_id(), "messages.js:send");
    assert_eq!(function.udf_id_type(), "function");
    assert!(function.should_track_calls());
    let system = UdfIdentifier::Function { path: "_system/x".to_string(), is_system: true };
    assert!(!system.should_track_calls());
    let http = UdfIdentifier::Http { route: "POST /x".to_string() };
    assert_eq!(http.udf_id(), "POST /x");
    assert_eq!(http.udf_id_type(), "http");
    assert!(http.should_track_calls());
    let cli = UdfIdentifier::Cli { command: "export".to_string() };
    assert_eq!(cli.udf_id(), "export");
    assert_eq!(cli.udf_id_type(), "cli");
    assert!(!cli.should_track_calls());
}

#[test]
fn the_bandwidth_of_tables_joins_both_directions() {
    let rows = table_bandwidth(
        &map_of(&[("a", 1), ("c", 3), ("d", 0), ("e", 0)]),
        &map_of(&[("b", 20), ("c", 30), ("d", 0), ("f", 0), ("g", 70)]),
    );
    let row = |table_name: &str, ingress: u64, egress: u64| TableBandwidth {
        table_name: table_name.to_string(),
        ingress,
        egress,
    };
    assert_eq!(rows, vec![row("a", 1, 0), row("b", 0, 20), row("c", 3, 30), row("g", 0, 70)]);
    assert_eq!(table_bandwidth(&CounterMap::new(), &CounterMap::new()), vec![]);
    assert_eq!(table_bandwidth(&map_of(&[("a", 1)]), &CounterMap::new()), vec![row("a", 1, 0)]);
    assert_eq!(table_bandwidth(&CounterMap::new(), &map_of(&[("a", 1)])), vec![row("a", 0, 1)]);
}

#[test]
fn an_independent_storage_call_gives_an_event_for_each_step() {
    let (mut call, started) =
        UsageCounter::new().track_storage_call("store", "call-1".to_string());
    assert_eq!(
        started,
        vec![UsageEvent::StorageCall { id: "call-1".to_string(), call: "store".to_string() }]
    );
    assert_eq!(
        call.track_storage_ingress_size(200),
        vec![UsageEvent::StorageBandwidth { id: "call-1".to_string(), ingress: 200, egress: 0 }]
    );
    assert_eq!(
        call.track_storage_egress_size(30),
        vec![UsageEvent::StorageBandwidth { id: "call-1".to_string(), ingress: 0, egress: 30 }]
    );
    assert_eq!(
        call.track_storage_ingress_size(0),
        vec![UsageEvent::StorageBandwidth { id: "call-1".to_string(), ingress: 0, egress: 0 }]
    );
}

#[test]
fn the_usage_of_a_tracker_becomes_the_events_of_its_call() {
    let mut tracker = FunctionUsageTracker::new();
    tracker.track_database_ingress_size("users".to_string(), 50, false);
    tracker.track_storage_call("getUrl").track_storage_ingress_size(200);
    tracker.track_vector_egress_size("docs".to_string(), 30, false);
    let events = UsageCounter::new().track_call(
        user_function(),
        "exec7".to_string(),
        CallType::CachedQuery,
        tracker.gather_user_stats(),
    );
    let id = "exec7".to_string();
    let udf_id = "messages.js:send".to_string();
    assert_eq!(
        events,
        vec![
            function_call("exec7", "messages.js:send", "function", "cached_query", 0, 0, "isolate", true),
            UsageEvent::FunctionStorageCalls {
                id: id.clone(),
                udf_id: udf_id.clone(),
                call: "getUrl".to_string(),
                count: 1,
            },
            storage_bandwidth("exec7", "messages.js:send", 200, 0),
            UsageEvent::DatabaseBandwidth {
                id: id.clone(),
                udf_id: udf_id.clone(),
                table_name: "docs".to_string(),
                ingress: 0,
                egress: 30,
            },
            UsageEvent::DatabaseBandwidth {
                id: id.clone(),
                udf_id: udf_id.clone(),
                table_name: "users".to_string(),
                ingress: 50,
                egress: 0,
            },
            UsageEvent::VectorBandwidth {
                id: id.clone(),
                udf_id: udf_id.clone(),
                table_name: "docs".to_string(),
                ingress: 0,
                egress: 30,
            },
        ]
    );
}
