//! The usage tracker of one function execution. It buffers the counters of
//! the execution; nothing is reported until they are gathered at its end.

use crate::counters::{count_of, counters_add};
use crate::events::UsageEvent;
use crate::stats::{FunctionUsageStats, UsageStatsView};
use crate::storage::{StorageCallTracker, StorageUsageTracker};
use vstd::prelude::*;

verus! {

impl UsageStatsView {
    /// This usage and `bytes` written to `table`.
    pub open spec fn with_database_ingress(self, table: Seq<char>, bytes: nat) -> UsageStatsView {
        UsageStatsView {
            database_ingress_size: counters_add(self.database_ingress_size, table, bytes),
            ..self
        }
    }

    /// This usage and `bytes` read from `table`.
    pub open spec fn with_database_egress(self, table: Seq<char>, bytes: nat) -> UsageStatsView {
        UsageStatsView {
            database_egress_size: counters_add(self.database_egress_size, table, bytes),
            ..self
        }
    }

    /// This usage and `bytes` written to `table` for a document in a vector
    /// index: they count as database and as vector bandwidth.
    pub open spec fn with_vector_ingress(self, table: Seq<char>, bytes: nat) -> UsageStatsView {
        UsageStatsView {
            database_ingress_size: counters_add(self.database_ingress_size, table, bytes),
            vector_ingress_size: counters_add(self.vector_ingress_size, table, bytes),
            ..self
        }
    }

    /// This usage and `bytes` read from `table` by a vector search: they
    /// count as database and as vector bandwidth.
    pub open spec fn with_vector_egress(self, table: Seq<char>, bytes: nat) -> UsageStatsView {
        UsageStatsView {
            database_egress_size: counters_add(self.database_egress_size, table, bytes),
            vector_egress_size: counters_add(self.vector_egress_size, table, bytes),
            ..self
        }
    }

    /// This usage and one call of `storage_api`.
    pub open spec fn with_storage_call(self, storage_api: Seq<char>) -> UsageStatsView {
        UsageStatsView { storage_calls: counters_add(self.storage_calls, storage_api, 1), ..self }
    }

    /// This usage and `bytes` written to storage.
    pub open spec fn with_storage_ingress(self, bytes: nat) -> UsageStatsView {
        UsageStatsView { storage_ingress_size: self.storage_ingress_size + bytes, ..self }
    }

    /// This usage and `bytes` read from storage.
    pub open spec fn with_storage_egress(self, bytes: nat) -> UsageStatsView {
        UsageStatsView { storage_egress_size: self.storage_egress_size + bytes, ..self }
    }
}

/// Tracking database bandwidth, or vector bandwidth as the tracker does it,
/// never brings the vector bandwidth of a table above its database
/// bandwidth.
pub proof fn lemma_tracking_keeps_vector_within_database(
    stats: UsageStatsView,
    table: Seq<char>,
    bytes: nat,
)
    requires
        stats.vector_within_database(),
    ensures
        stats.with_database_ingress(table, bytes).vector_within_database(),
        stats.with_database_egress(table, bytes).vector_within_database(),
        stats.with_vector_ingress(table, bytes).vector_within_database(),
        stats.with_vector_egress(table, bytes).vector_within_database(),
{
    assert forall|s: UsageStatsView|
        s == stats.with_database_ingress(table, bytes) || s == stats.with_database_egress(
            table,
            bytes,
        ) || s == stats.with_vector_ingress(table, bytes) || s == stats.with_vector_egress(
            table,
            bytes,
        ) implies s.vector_within_database() by {
        assert forall|t: Seq<char>|
            count_of(s.vector_ingress_size, t) <= count_of(s.database_ingress_size, t) by {
            assert(count_of(stats.vector_ingress_size, t) <= count_of(
                stats.database_ingress_size,
                t,
            ));
        }
        assert forall|t: Seq<char>|
            count_of(s.vector_egress_size, t) <= count_of(s.database_egress_size, t) by {
            assert(count_of(stats.vector_egress_size, t) <= count_of(
                stats.database_egress_size,
                t,
            ));
        }
    }
}

/// The usage tracker of one function execution.
#[derive(Debug)]
pub struct FunctionUsageTracker {
    state: FunctionUsageStats,
}

impl View for FunctionUsageTracker {
    type V = UsageStatsView;

    /// The usage tracked so far.
    closed spec fn view(&self) -> UsageStatsView {
        self.state@
    }
}

impl FunctionUsageTracker {
    /// A tracker that has tracked nothing.
    pub fn new() -> (tracker: FunctionUsageTracker)
        ensures
            tracker@ == UsageStatsView::zero(),
    {
        FunctionUsageTracker { state: FunctionUsageStats::default() }
    }

    /// Ends the tracking and gives the usage tracked.
    pub fn gather_user_stats(self) -> (stats: FunctionUsageStats)
        ensures
            stats@ == self@,
    {
        self.state
    }

    /// The usage tracked so far.
    pub fn stats(&self) -> (stats: &FunctionUsageStats)
        ensures
            stats@ == self@,
    {
        &self.state
    }

    /// Adds the given usage to what was tracked.
    pub fn add(&mut self, stats: FunctionUsageStats)
        requires
            old(self)@.merge(stats@).fits(),
        ensures
            final(self)@ == old(self)@.merge(stats@),
    {
        self.state.merge(stats);
    }

    /// Tracks bytes written to a table for a document that is in no vector
    /// index. With `skip_logging` nothing is tracked.
    pub fn track_database_ingress_size(
        &mut self,
        table_name: String,
        ingress_size: u64,
        skip_logging: bool,
    )
        requires
            !skip_logging ==> count_of(old(self)@.database_ingress_size, table_name@) + ingress_size
                <= u64::MAX,
        ensures
            skip_logging ==> final(self)@ == old(self)@,
            !skip_logging ==> final(self)@ == old(self)@.with_database_ingress(
                table_name@,
                ingress_size as nat,
            ),
    {
        if skip_logging {
            return ;
        }
        self.state.database_ingress_size.add_count(table_name, ingress_size);
    }

    /// Tracks bytes read from a table other than by a vector search. With
    /// `skip_logging` nothing is tracked.
    pub fn track_database_egress_size(
        &mut self,
        table_name: String,
        egress_size: u64,
        skip_logging: bool,
    )
        requires
            !skip_logging ==> count_of(old(self)@.database_egress_size, table_name@) + egress_size
                <= u64::MAX,
        ensures
            skip_logging ==> final(self)@ == old(self)@,
            !skip_logging ==> final(self)@ == old(self)@.with_database_egress(
                table_name@,
                egress_size as nat,
            ),
    {
        if skip_logging {
            return ;
        }
        self.state.database_egress_size.add_count(table_name, egress_size);
    }

    /// Tracks bytes written to a table for a document that is in a vector
    /// index: they count as database bandwidth and as vector bandwidth. With
    /// `skip_logging` nothing is tracked.
    pub fn track_vector_ingress_size(
        &mut self,
        table_name: String,
        ingress_size: u64,
        skip_logging: bool,
    )
        requires
            !skip_logging ==> count_of(old(self)@.database_ingress_size, table_name@) + ingress_size
                <= u64::MAX,
            !skip_logging ==> count_of(old(self)@.vector_ingress_size, table_name@) + ingress_size
                <= u64::MAX,
        ensures
            skip_logging ==> final(self)@ == old(self)@,
            !skip_logging ==> final(self)@ == old(self)@.with_vector_ingress(
                table_name@,
                ingress_size as nat,
            ),
    {
        if skip_logging {
            return ;
        }
        self.state.database_ingress_size.add_count(table_name.clone(), ingress_size);
        self.state.vector_ingress_size.add_count(table_name, ingress_size);
    }

    /// Tracks bytes read from a table by a vector search: they count as
    /// database bandwidth and as vector bandwidth. With `skip_logging`
    /// nothing is tracked.
    pub fn track_vector_egress_size(
        &mut self,
        table_name: String,
        egress_size: u64,
        skip_logging: bool,
    )
        requires
            !skip_logging ==> count_of(old(self)@.database_egress_size, table_name@) + egress_size
                <= u64::MAX,
            !skip_logging ==> count_of(old(self)@.vector_egress_size, table_name@) + egress_size
                <= u64::MAX,
        ensures
            skip_logging ==> final(self)@ == old(self)@,
            !skip_logging ==> final(self)@ == old(self)@.with_vector_egress(
                table_name@,
                egress_size as nat,
            ),
    {
        if skip_logging {
            return ;
        }
        self.state.database_egress_size.add_count(table_name.clone(), egress_size);
        self.state.vector_egress_size.add_count(table_name, egress_size);
    }
}

impl StorageCallTracker for FunctionUsageTracker {
    open spec fn accepts_storage_ingress(&self, ingress_size: u64) -> bool {
        self@.storage_ingress_size + ingress_size <= u64::MAX
    }

    open spec fn accepts_storage_egress(&self, egress_size: u64) -> bool {
        self@.storage_egress_size + egress_size <= u64::MAX
    }

    open spec fn buffered_storage_ingress(&self) -> nat {
        self@.storage_ingress_size
    }

    open spec fn buffered_storage_egress(&self) -> nat {
        self@.storage_egress_size
    }

    /// Adds to the bytes written to storage. No event comes of it.
    fn track_storage_ingress_size(&mut self, ingress_size: u64) -> (emitted: Vec<UsageEvent>)
        ensures
            final(self)@ == old(self)@.with_storage_ingress(ingress_size as nat),
            emitted@.len() == 0,
    {
        self.state.storage_ingress_size = self.state.storage_ingress_size + ingress_size;
        Vec::new()
    }

    /// Adds to the bytes read from storage. No event comes of it.
    fn track_storage_egress_size(&mut self, egress_size: u64) -> (emitted: Vec<UsageEvent>)
        ensures
            final(self)@ == old(self)@.with_storage_egress(egress_size as nat),
            emitted@.len() == 0,
    {
        self.state.storage_egress_size = self.state.storage_egress_size + egress_size;
        Vec::new()
    }
}

impl StorageUsageTracker for FunctionUsageTracker {
    type CallTracker = FunctionUsageTracker;

    open spec fn accepts_storage_call(&self, storage_api: Seq<char>) -> bool {
        count_of(self@.storage_calls, storage_api) + 1 <= u64::MAX
    }

    /// Counts one call of `storage_api` and hands the tracker back as the
    /// tracker of the bytes of that call: what is recorded through it is
    /// tracked here.
    fn track_storage_call(&mut self, storage_api: &'static str) -> (call: &mut FunctionUsageTracker)
        ensures
            call@ == old(self)@.with_storage_call(storage_api@),
            *final(self) == *final(call),
    {
        self.state.storage_calls.add_count(storage_api.to_owned(), 1);
        self
    }
}

} // verus!
