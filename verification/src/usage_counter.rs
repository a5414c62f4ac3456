//! From the usage of a finished call to the events that report it, and the
//! tracking of storage calls that belong to no function execution.

use crate::bandwidth::{bandwidth_by_table, table_bandwidth, TableBandwidth};
use crate::counters::CounterMap;
use crate::events::{CallType, UdfIdentifier, UsageEvent, UsageEventView};
use crate::listing::sorted_entries;
use crate::stats::{FunctionUsageStats, UsageStatsView};
use crate::storage::{lemma_reported_by_one, StorageCallTracker};
use vstd::prelude::*;

verus! {

/// The event that reports the count of one storage API.
pub open spec fn storage_calls_event(
    id: Seq<char>,
    udf_id: Seq<char>,
    entry: (Seq<char>, nat),
) -> UsageEventView {
    UsageEventView::FunctionStorageCalls { id, udf_id, call: entry.0, count: entry.1 }
}

/// One event for each of the entries, in their order.
pub open spec fn storage_calls_events(
    id: Seq<char>,
    udf_id: Seq<char>,
    entries: Seq<(Seq<char>, nat)>,
) -> Seq<UsageEventView> {
    Seq::new(entries.len(), |i: int| storage_calls_event(id, udf_id, entries[i]))
}

/// The event that reports the bandwidth of one table: of its vector index
/// where `vector` is set, else of the database.
pub open spec fn bandwidth_event(
    vector: bool,
    id: Seq<char>,
    udf_id: Seq<char>,
    row: (Seq<char>, (nat, nat)),
) -> UsageEventView {
    if vector {
        UsageEventView::VectorBandwidth {
            id,
            udf_id,
            table_name: row.0,
            ingress: row.1.0,
            egress: row.1.1,
        }
    } else {
        UsageEventView::DatabaseBandwidth {
            id,
            udf_id,
            table_name: row.0,
            ingress: row.1.0,
            egress: row.1.1,
        }
    }
}

/// One event for each of the rows, in their order.
pub open spec fn bandwidth_events(
    vector: bool,
    id: Seq<char>,
    udf_id: Seq<char>,
    rows: Seq<(Seq<char>, (nat, nat))>,
) -> Seq<UsageEventView> {
    Seq::new(rows.len(), |i: int| bandwidth_event(vector, id, udf_id, rows[i]))
}

/// The events that report the usage of one call, in this order: for each
/// storage API that was called, by name, its count; the bytes written to and
/// read from storage, also where both are zero; for each table with database
/// bandwidth, by name, the bytes written and read; and the same for vector
/// bandwidth.
pub open spec fn function_usage_events(
    id: Seq<char>,
    udf_id: Seq<char>,
    stats: UsageStatsView,
) -> Seq<UsageEventView> {
    storage_calls_events(id, udf_id, sorted_entries(stats.storage_calls))
        + seq![
        UsageEventView::FunctionStorageBandwidth {
            id,
            udf_id,
            ingress: stats.storage_ingress_size,
            egress: stats.storage_egress_size,
        },
    ] + bandwidth_events(
        false,
        id,
        udf_id,
        sorted_entries(bandwidth_by_table(stats.database_ingress_size, stats.database_egress_size)),
    ) + bandwidth_events(
        true,
        id,
        udf_id,
        sorted_entries(bandwidth_by_table(stats.vector_ingress_size, stats.vector_egress_size)),
    )
}

/// The event that sums up a call.
pub open spec fn function_call_event(
    udf_path: UdfIdentifier,
    id: Seq<char>,
    call_type: CallType,
) -> UsageEventView {
    UsageEventView::FunctionCall {
        id,
        udf_id: udf_path.udf_id_view(),
        udf_id_type: udf_path.udf_id_type_view(),
        tag: call_type.tag_view(),
        memory_megabytes: call_type.memory_megabytes_view(),
        duration_millis: call_type.duration_millis_view(),
        environment: call_type.environment_view(),
        is_tracked: udf_path.counts_calls(),
    }
}

/// The events of a finished call: the one that sums it up, then those of its
/// usage.
pub open spec fn call_events(
    udf_path: UdfIdentifier,
    id: Seq<char>,
    call_type: CallType,
    stats: UsageStatsView,
) -> Seq<UsageEventView> {
    seq![function_call_event(udf_path, id, call_type)] + function_usage_events(
        id,
        udf_path.udf_id_view(),
        stats,
    )
}

/// Appends the events that report the counts of the storage APIs.
fn push_storage_calls(
    calls: &CounterMap,
    id: &String,
    udf_id: &String,
    usage_metrics: &mut Vec<UsageEvent>,
)
    ensures
        final(usage_metrics).deep_view() == old(usage_metrics).deep_view() + storage_calls_events(
            id@,
            udf_id@,
            sorted_entries(calls@),
        ),
{
    let ghost entries = sorted_entries(calls@);
    let n = calls.len();
    let mut i: usize = 0;
    assert(usage_metrics.deep_view() =~= old(usage_metrics).deep_view() + storage_calls_events(
        id@,
        udf_id@,
        entries.take(0),
    ));
    while i < n
        invariant
            i <= n,
            n == calls@.len(),
            n == entries.len(),
            entries == sorted_entries(calls@),
            usage_metrics.deep_view() == old(usage_metrics).deep_view() + storage_calls_events(
                id@,
                udf_id@,
                entries.take(i as int),
            ),
        decreases n - i,
    {
        let ghost before = usage_metrics.deep_view();
        let event = UsageEvent::FunctionStorageCalls {
            id: id.clone(),
            udf_id: udf_id.clone(),
            call: calls.name_at(i).clone(),
            count: calls.count_at(i),
        };
        usage_metrics.push(event);
        assert(usage_metrics.deep_view() =~= before.push(event.deep_view()));
        assert(usage_metrics.deep_view() =~= old(usage_metrics).deep_view() + storage_calls_events(
            id@,
            udf_id@,
            entries.take(i + 1),
        ));
        i += 1;
    }
}

/// Appends the events that report the bandwidth of the tables.
fn push_bandwidth(
    rows: &Vec<TableBandwidth>,
    vector: bool,
    id: &String,
    udf_id: &String,
    usage_metrics: &mut Vec<UsageEvent>,
)
    ensures
        final(usage_metrics).deep_view() == old(usage_metrics).deep_view() + bandwidth_events(
            vector,
            id@,
            udf_id@,
            rows.deep_view(),
        ),
{
    let ghost all = rows.deep_view();
    let n = rows.len();
    let mut i: usize = 0;
    assert(usage_metrics.deep_view() =~= old(usage_metrics).deep_view() + bandwidth_events(
        vector,
        id@,
        udf_id@,
        all.take(0),
    ));
    while i < n
        invariant
            i <= n,
            n == rows.len(),
            all == rows.deep_view(),
            usage_metrics.deep_view() == old(usage_metrics).deep_view() + bandwidth_events(
                vector,
                id@,
                udf_id@,
                all.take(i as int),
            ),
        decreases n - i,
    {
        let ghost before = usage_metrics.deep_view();
        let row = &rows[i];
        let event = if vector {
            UsageEvent::VectorBandwidth {
                id: id.clone(),
                udf_id: udf_id.clone(),
                table_name: row.table_name.clone(),
                ingress: row.ingress,
                egress: row.egress,
            }
        } else {
            UsageEvent::DatabaseBandwidth {
                id: id.clone(),
                udf_id: udf_id.clone(),
                table_name: row.table_name.clone(),
                ingress: row.ingress,
                egress: row.egress,
            }
        };
        usage_metrics.push(event);
        assert(usage_metrics.deep_view() =~= before.push(event.deep_view()));
        assert(usage_metrics.deep_view() =~= old(usage_metrics).deep_view() + bandwidth_events(
            vector,
            id@,
            udf_id@,
            all.take(i + 1),
        ));
        i += 1;
    }
}

/// Turns the usage of finished calls into usage events. It holds no state:
/// what it returns is for the event sink, in that order.
#[derive(Clone, Copy, Debug)]
pub struct UsageCounter {}

impl UsageCounter {
    /// A usage counter.
    pub fn new() -> (counter: UsageCounter) {
        UsageCounter {  }
    }

    /// The events of a finished call: one that sums up the call, then those
    /// of its usage. The calls of system functions and of the command-line
    /// tool are marked as not counted; their usage is reported like any
    /// other.
    pub fn track_call(
        &self,
        udf_path: UdfIdentifier,
        execution_id: String,
        call_type: CallType,
        stats: FunctionUsageStats,
    ) -> (usage_metrics: Vec<UsageEvent>)
        ensures
            usage_metrics.deep_view() == call_events(udf_path, execution_id@, call_type, stats@),
    {
        let mut usage_metrics: Vec<UsageEvent> = Vec::new();
        let event = UsageEvent::FunctionCall {
            id: execution_id.clone(),
            udf_id: udf_path.udf_id(),
            udf_id_type: udf_path.udf_id_type().to_owned(),
            tag: call_type.tag().to_owned(),
            memory_megabytes: call_type.memory_megabytes(),
            duration_millis: call_type.duration_millis(),
            environment: call_type.environment(),
            is_tracked: udf_path.should_track_calls(),
        };
        usage_metrics.push(event);
        assert(usage_metrics.deep_view() =~= seq![
            function_call_event(udf_path, execution_id@, call_type),
        ]);
        self._track_function_usage(udf_path, stats, execution_id, &mut usage_metrics);
        usage_metrics
    }

    /// The events of the usage of a call of which no summing-up is wanted.
    pub fn track_function_usage(
        &self,
        udf_path: UdfIdentifier,
        execution_id: String,
        stats: FunctionUsageStats,
    ) -> (usage_metrics: Vec<UsageEvent>)
        ensures
            usage_metrics.deep_view() == function_usage_events(
                execution_id@,
                udf_path.udf_id_view(),
                stats@,
            ),
    {
        let mut usage_metrics: Vec<UsageEvent> = Vec::new();
        self._track_function_usage(udf_path, stats, execution_id, &mut usage_metrics);
        usage_metrics
    }

    /// Appends the events of the usage of a call to `usage_metrics`.
    pub fn _track_function_usage(
        &self,
        udf_path: UdfIdentifier,
        stats: FunctionUsageStats,
        execution_id: String,
        usage_metrics: &mut Vec<UsageEvent>,
    )
        ensures
            final(usage_metrics).deep_view() == old(usage_metrics).deep_view()
                + function_usage_events(execution_id@, udf_path.udf_id_view(), stats@),
    {
        let udf_id = udf_path.udf_id();
        push_storage_calls(&stats.storage_calls, &execution_id, &udf_id, usage_metrics);
        let ghost before = usage_metrics.deep_view();
        let event = UsageEvent::FunctionStorageBandwidth {
            id: execution_id.clone(),
            udf_id: udf_id.clone(),
            ingress: stats.storage_ingress_size,
            egress: stats.storage_egress_size,
        };
        usage_metrics.push(event);
        assert(usage_metrics.deep_view() =~= before.push(event.deep_view()));
        let database = table_bandwidth(&stats.database_ingress_size, &stats.database_egress_size);
        push_bandwidth(&database, false, &execution_id, &udf_id, usage_metrics);
        let vector = table_bandwidth(&stats.vector_ingress_size, &stats.vector_egress_size);
        push_bandwidth(&vector, true, &execution_id, &udf_id, usage_metrics);
        assert(usage_metrics.deep_view() =~= old(usage_metrics).deep_view()
            + function_usage_events(execution_id@, udf_path.udf_id_view(), stats@));
    }

    /// Starts a storage call that belongs to no function execution, under
    /// the fresh identifier `execution_id`: the tracker of its bytes, and the
    /// event that reports the call.
    pub fn track_storage_call(&self, storage_api: &'static str, execution_id: String) -> (started: (
        IndependentStorageCallTracker,
        Vec<UsageEvent>,
    ))
        ensures
            started.0@ == execution_id@,
            started.1.deep_view() == seq![
                UsageEventView::StorageCall { id: execution_id@, call: storage_api@ },
            ],
    {
        let event = UsageEvent::StorageCall {
            id: execution_id.clone(),
            call: storage_api.to_owned(),
        };
        let mut emitted: Vec<UsageEvent> = Vec::new();
        emitted.push(event);
        (IndependentStorageCallTracker::new(execution_id), emitted)
    }
}

/// Tracks the bytes of a storage call that belongs to no function execution.
/// It keeps no counters: each recording is an event of its own, under the
/// identifier of the call.
#[derive(Debug)]
pub struct IndependentStorageCallTracker {
    execution_id: String,
}

impl View for IndependentStorageCallTracker {
    type V = Seq<char>;

    /// The identifier of the call.
    closed spec fn view(&self) -> Seq<char> {
        self.execution_id@
    }
}

impl IndependentStorageCallTracker {
    /// The tracker of the call with the identifier `execution_id`.
    pub fn new(execution_id: String) -> (tracker: IndependentStorageCallTracker)
        ensures
            tracker@ == execution_id@,
    {
        IndependentStorageCallTracker { execution_id }
    }
}

impl StorageCallTracker for IndependentStorageCallTracker {
    open spec fn accepts_storage_ingress(&self, ingress_size: u64) -> bool {
        true
    }

    open spec fn accepts_storage_egress(&self, egress_size: u64) -> bool {
        true
    }

    open spec fn buffered_storage_ingress(&self) -> nat {
        0
    }

    open spec fn buffered_storage_egress(&self) -> nat {
        0
    }

    fn track_storage_ingress_size(&mut self, ingress_size: u64) -> (emitted: Vec<UsageEvent>)
        ensures
            final(self)@ == old(self)@,
            emitted.deep_view() == seq![
                UsageEventView::StorageBandwidth {
                    id: old(self)@,
                    ingress: ingress_size as nat,
                    egress: 0,
                },
            ],
    {
        let event = UsageEvent::StorageBandwidth {
            id: self.execution_id.clone(),
            ingress: ingress_size,
            egress: 0,
        };
        let mut emitted: Vec<UsageEvent> = Vec::new();
        emitted.push(event);
        proof {
            assert(emitted.deep_view() =~= seq![event.deep_view()]);
            lemma_reported_by_one(event.deep_view());
        }
        emitted
    }

    fn track_storage_egress_size(&mut self, egress_size: u64) -> (emitted: Vec<UsageEvent>)
        ensures
            final(self)@ == old(self)@,
            emitted.deep_view() == seq![
                UsageEventView::StorageBandwidth {
                    id: old(self)@,
                    ingress: 0,
                    egress: egress_size as nat,
                },
            ],
    {
        let event = UsageEvent::StorageBandwidth {
            id: self.execution_id.clone(),
            ingress: 0,
            egress: egress_size,
        };
        let mut emitted: Vec<UsageEvent> = Vec::new();
        emitted.push(event);
        proof {
            assert(emitted.deep_view() =~= seq![event.deep_view()]);
            lemma_reported_by_one(event.deep_view());
        }
        emitted
    }
}

} // verus!
