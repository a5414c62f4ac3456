//! The usage counters of one scope, how two sets of them merge, and their
//! totals.

use crate::counters::{
    count_of, counters_fit, counters_merge, counters_total, lemma_counters_total_merge, CounterMap,
};
use vstd::prelude::*;
use vstd::std_specs::cmp::PartialEqSpecImpl;

verus! {

/// What a set of usage counters holds, as mathematical maps and numbers.
pub struct UsageStatsView {
    pub storage_calls: Map<Seq<char>, nat>,
    pub storage_ingress_size: nat,
    pub storage_egress_size: nat,
    pub database_ingress_size: Map<Seq<char>, nat>,
    pub database_egress_size: Map<Seq<char>, nat>,
    pub vector_ingress_size: Map<Seq<char>, nat>,
    pub vector_egress_size: Map<Seq<char>, nat>,
}

impl UsageStatsView {
    /// Nothing used: every map empty, every number zero.
    pub open spec fn zero() -> UsageStatsView {
        UsageStatsView {
            storage_calls: Map::empty(),
            storage_ingress_size: 0,
            storage_egress_size: 0,
            database_ingress_size: Map::empty(),
            database_egress_size: Map::empty(),
            vector_ingress_size: Map::empty(),
            vector_egress_size: Map::empty(),
        }
    }

    /// The two sets of counters added up: the numbers, and the maps name by
    /// name.
    pub open spec fn merge(self, other: UsageStatsView) -> UsageStatsView {
        UsageStatsView {
            storage_calls: counters_merge(self.storage_calls, other.storage_calls),
            storage_ingress_size: self.storage_ingress_size + other.storage_ingress_size,
            storage_egress_size: self.storage_egress_size + other.storage_egress_size,
            database_ingress_size: counters_merge(
                self.database_ingress_size,
                other.database_ingress_size,
            ),
            database_egress_size: counters_merge(
                self.database_egress_size,
                other.database_egress_size,
            ),
            vector_ingress_size: counters_merge(
                self.vector_ingress_size,
                other.vector_ingress_size,
            ),
            vector_egress_size: counters_merge(self.vector_egress_size, other.vector_egress_size),
        }
    }

    /// Each map has finitely many names.
    pub open spec fn finite(self) -> bool {
        &&& self.storage_calls.dom().finite()
        &&& self.database_ingress_size.dom().finite()
        &&& self.database_egress_size.dom().finite()
        &&& self.vector_ingress_size.dom().finite()
        &&& self.vector_egress_size.dom().finite()
    }

    /// Every counter fits in 64 bits.
    pub open spec fn fits(self) -> bool {
        &&& counters_fit(self.storage_calls)
        &&& self.storage_ingress_size <= u64::MAX
        &&& self.storage_egress_size <= u64::MAX
        &&& counters_fit(self.database_ingress_size)
        &&& counters_fit(self.database_egress_size)
        &&& counters_fit(self.vector_ingress_size)
        &&& counters_fit(self.vector_egress_size)
    }

    /// No table has more vector bandwidth than database bandwidth, in either
    /// direction.
    pub open spec fn vector_within_database(self) -> bool {
        &&& forall|table: Seq<char>|
            count_of(self.vector_ingress_size, table) <= count_of(
                self.database_ingress_size,
                table,
            )
        &&& forall|table: Seq<char>|
            count_of(self.vector_egress_size, table) <= count_of(self.database_egress_size, table)
    }
}

/// Merging counters does not depend on the order of the two.
pub proof fn lemma_counters_merge_commutative(a: Map<Seq<char>, nat>, b: Map<Seq<char>, nat>)
    ensures
        counters_merge(a, b) == counters_merge(b, a),
{
}

/// Merging three sets of counters does not depend on which two are merged
/// first.
pub proof fn lemma_counters_merge_associative(
    a: Map<Seq<char>, nat>,
    b: Map<Seq<char>, nat>,
    c: Map<Seq<char>, nat>,
)
    ensures
        counters_merge(counters_merge(a, b), c) == counters_merge(a, counters_merge(b, c)),
{
}

/// Merging with no counters changes nothing.
pub proof fn lemma_counters_merge_empty(a: Map<Seq<char>, nat>)
    ensures
        counters_merge(a, Map::empty()) == a,
        counters_merge(Map::empty(), a) == a,
{
}

/// Merging usage does not depend on the order of the two.
pub proof fn lemma_merge_commutative(a: UsageStatsView, b: UsageStatsView)
    ensures
        a.merge(b) == b.merge(a),
{
    lemma_counters_merge_commutative(a.storage_calls, b.storage_calls);
    lemma_counters_merge_commutative(a.database_ingress_size, b.database_ingress_size);
    lemma_counters_merge_commutative(a.database_egress_size, b.database_egress_size);
    lemma_counters_merge_commutative(a.vector_ingress_size, b.vector_ingress_size);
    lemma_counters_merge_commutative(a.vector_egress_size, b.vector_egress_size);
}

/// Merging three usages does not depend on which two are merged first.
pub proof fn lemma_merge_associative(a: UsageStatsView, b: UsageStatsView, c: UsageStatsView)
    ensures
        a.merge(b).merge(c) == a.merge(b.merge(c)),
{
    lemma_counters_merge_associative(a.storage_calls, b.storage_calls, c.storage_calls);
    lemma_counters_merge_associative(
        a.database_ingress_size,
        b.database_ingress_size,
        c.database_ingress_size,
    );
    lemma_counters_merge_associative(
        a.database_egress_size,
        b.database_egress_size,
        c.database_egress_size,
    );
    lemma_counters_merge_associative(
        a.vector_ingress_size,
        b.vector_ingress_size,
        c.vector_ingress_size,
    );
    lemma_counters_merge_associative(
        a.vector_egress_size,
        b.vector_egress_size,
        c.vector_egress_size,
    );
}

/// Merging with the usage of nothing changes nothing.
pub proof fn lemma_merge_zero(a: UsageStatsView)
    ensures
        a.merge(UsageStatsView::zero()) == a,
        UsageStatsView::zero().merge(a) == a,
{
    lemma_counters_merge_empty(a.storage_calls);
    lemma_counters_merge_empty(a.database_ingress_size);
    lemma_counters_merge_empty(a.database_egress_size);
    lemma_counters_merge_empty(a.vector_ingress_size);
    lemma_counters_merge_empty(a.vector_egress_size);
}

/// Where neither of two usages has more vector than database bandwidth for
/// any table, their merge has not either.
pub proof fn lemma_merge_keeps_vector_within_database(a: UsageStatsView, b: UsageStatsView)
    requires
        a.vector_within_database(),
        b.vector_within_database(),
    ensures
        a.merge(b).vector_within_database(),
{
}

/// The usage counters of one scope.
#[derive(Debug)]
pub struct FunctionUsageStats {
    /// Calls by storage API.
    pub storage_calls: CounterMap,
    /// Bytes written to storage.
    pub storage_ingress_size: u64,
    /// Bytes read from storage.
    pub storage_egress_size: u64,
    /// Bytes written to the database, by table.
    pub database_ingress_size: CounterMap,
    /// Bytes read from the database, by table.
    pub database_egress_size: CounterMap,
    /// Of the bytes written to a table, those of documents in a vector index.
    pub vector_ingress_size: CounterMap,
    /// Of the bytes read from a table, those read by vector searches.
    pub vector_egress_size: CounterMap,
}

impl View for FunctionUsageStats {
    type V = UsageStatsView;

    open spec fn view(&self) -> UsageStatsView {
        UsageStatsView {
            storage_calls: self.storage_calls@,
            storage_ingress_size: self.storage_ingress_size as nat,
            storage_egress_size: self.storage_egress_size as nat,
            database_ingress_size: self.database_ingress_size@,
            database_egress_size: self.database_egress_size@,
            vector_ingress_size: self.vector_ingress_size@,
            vector_egress_size: self.vector_egress_size@,
        }
    }
}

/// The totals of a scope's usage, over all tables.
#[derive(Debug, Clone, Copy, PartialEq, Eq, Structural)]
pub struct AggregatedFunctionUsageStats {
    pub database_read_bytes: u64,
    pub database_write_bytes: u64,
    pub storage_read_bytes: u64,
    pub storage_write_bytes: u64,
    pub vector_index_read_bytes: u64,
    pub vector_index_write_bytes: u64,
}

impl Default for AggregatedFunctionUsageStats {
    fn default() -> (totals: AggregatedFunctionUsageStats)
        ensures
            totals == (AggregatedFunctionUsageStats {
                database_read_bytes: 0,
                database_write_bytes: 0,
                storage_read_bytes: 0,
                storage_write_bytes: 0,
                vector_index_read_bytes: 0,
                vector_index_write_bytes: 0,
            }),
    {
        AggregatedFunctionUsageStats {
            database_read_bytes: 0,
            database_write_bytes: 0,
            storage_read_bytes: 0,
            storage_write_bytes: 0,
            vector_index_read_bytes: 0,
            vector_index_write_bytes: 0,
        }
    }
}

/// The totals that `stats` aggregates to, as mathematical numbers: for the
/// database and the vector index the sum over all tables, for storage the two
/// numbers as they are.
pub struct AggregatedView {
    pub database_read_bytes: nat,
    pub database_write_bytes: nat,
    pub storage_read_bytes: nat,
    pub storage_write_bytes: nat,
    pub vector_index_read_bytes: nat,
    pub vector_index_write_bytes: nat,
}

impl UsageStatsView {
    /// The totals of this usage.
    pub open spec fn aggregate(self) -> AggregatedView {
        AggregatedView {
            database_read_bytes: counters_total(self.database_egress_size),
            database_write_bytes: counters_total(self.database_ingress_size),
            storage_read_bytes: self.storage_egress_size,
            storage_write_bytes: self.storage_ingress_size,
            vector_index_read_bytes: counters_total(self.vector_egress_size),
            vector_index_write_bytes: counters_total(self.vector_ingress_size),
        }
    }
}

impl AggregatedView {
    /// Every total fits in 64 bits.
    pub open spec fn fits(self) -> bool {
        &&& self.database_read_bytes <= u64::MAX
        &&& self.database_write_bytes <= u64::MAX
        &&& self.storage_read_bytes <= u64::MAX
        &&& self.storage_write_bytes <= u64::MAX
        &&& self.vector_index_read_bytes <= u64::MAX
        &&& self.vector_index_write_bytes <= u64::MAX
    }
}

/// The totals of merged usage are the sums of the totals of the two.
pub proof fn lemma_aggregate_merge(a: UsageStatsView, b: UsageStatsView)
    requires
        a.finite(),
        b.finite(),
    ensures
        a.merge(b).finite(),
        a.merge(b).aggregate() == (AggregatedView {
            database_read_bytes: a.aggregate().database_read_bytes
                + b.aggregate().database_read_bytes,
            database_write_bytes: a.aggregate().database_write_bytes
                + b.aggregate().database_write_bytes,
            storage_read_bytes: a.aggregate().storage_read_bytes + b.aggregate().storage_read_bytes,
            storage_write_bytes: a.aggregate().storage_write_bytes
                + b.aggregate().storage_write_bytes,
            vector_index_read_bytes: a.aggregate().vector_index_read_bytes
                + b.aggregate().vector_index_read_bytes,
            vector_index_write_bytes: a.aggregate().vector_index_write_bytes
                + b.aggregate().vector_index_write_bytes,
        }),
{
    lemma_counters_total_merge(a.storage_calls, b.storage_calls);
    lemma_counters_total_merge(a.database_ingress_size, b.database_ingress_size);
    lemma_counters_total_merge(a.database_egress_size, b.database_egress_size);
    lemma_counters_total_merge(a.vector_ingress_size, b.vector_ingress_size);
    lemma_counters_total_merge(a.vector_egress_size, b.vector_egress_size);
}

impl View for AggregatedFunctionUsageStats {
    type V = AggregatedView;

    open spec fn view(&self) -> AggregatedView {
        AggregatedView {
            database_read_bytes: self.database_read_bytes as nat,
            database_write_bytes: self.database_write_bytes as nat,
            storage_read_bytes: self.storage_read_bytes as nat,
            storage_write_bytes: self.storage_write_bytes as nat,
            vector_index_read_bytes: self.vector_index_read_bytes as nat,
            vector_index_write_bytes: self.vector_index_write_bytes as nat,
        }
    }
}

impl Default for FunctionUsageStats {
    fn default() -> (stats: FunctionUsageStats)
        ensures
            stats@ == UsageStatsView::zero(),
    {
        FunctionUsageStats {
            storage_calls: CounterMap::new(),
            storage_ingress_size: 0,
            storage_egress_size: 0,
            database_ingress_size: CounterMap::new(),
            database_egress_size: CounterMap::new(),
            vector_ingress_size: CounterMap::new(),
            vector_egress_size: CounterMap::new(),
        }
    }
}

impl Clone for FunctionUsageStats {
    fn clone(&self) -> (copy: FunctionUsageStats)
        ensures
            copy@ == self@,
    {
        FunctionUsageStats {
            storage_calls: self.storage_calls.clone(),
            storage_ingress_size: self.storage_ingress_size,
            storage_egress_size: self.storage_egress_size,
            database_ingress_size: self.database_ingress_size.clone(),
            database_egress_size: self.database_egress_size.clone(),
            vector_ingress_size: self.vector_ingress_size.clone(),
            vector_egress_size: self.vector_egress_size.clone(),
        }
    }
}

impl PartialEq for FunctionUsageStats {
    fn eq(&self, other: &FunctionUsageStats) -> (same: bool) {
        self.storage_calls == other.storage_calls && self.storage_ingress_size
            == other.storage_ingress_size && self.storage_egress_size == other.storage_egress_size
            && self.database_ingress_size == other.database_ingress_size
            && self.database_egress_size == other.database_egress_size && self.vector_ingress_size
            == other.vector_ingress_size && self.vector_egress_size == other.vector_egress_size
    }
}

impl PartialEqSpecImpl for FunctionUsageStats {
    open spec fn obeys_eq_spec() -> bool {
        true
    }

    open spec fn eq_spec(&self, other: &FunctionUsageStats) -> bool {
        self@ == other@
    }
}

impl Eq for FunctionUsageStats {

}

impl FunctionUsageStats {
    /// What usage counters hold is finite, and fits in 64 bits.
    pub proof fn lemma_view_valid(&self)
        ensures
            self@.finite(),
            self@.fits(),
    {
        self.storage_calls.lemma_view_valid();
        self.database_ingress_size.lemma_view_valid();
        self.database_egress_size.lemma_view_valid();
        self.vector_ingress_size.lemma_view_valid();
        self.vector_egress_size.lemma_view_valid();
    }

    /// The totals over all tables.
    pub fn aggregate(&self) -> (totals: AggregatedFunctionUsageStats)
        requires
            self@.aggregate().fits(),
        ensures
            totals@ == self@.aggregate(),
    {
        AggregatedFunctionUsageStats {
            database_read_bytes: self.database_egress_size.total(),
            database_write_bytes: self.database_ingress_size.total(),
            storage_read_bytes: self.storage_egress_size,
            storage_write_bytes: self.storage_ingress_size,
            vector_index_read_bytes: self.vector_egress_size.total(),
            vector_index_write_bytes: self.vector_ingress_size.total(),
        }
    }

    /// The totals over all tables, where each fits in 64 bits.
    pub fn checked_aggregate(&self) -> (totals: Option<AggregatedFunctionUsageStats>)
        ensures
            match totals {
                Some(totals) => totals@ == self@.aggregate(),
                None => !self@.aggregate().fits(),
            },
    {
        let database_read_bytes = match self.database_egress_size.checked_total() {
            Some(total) => total,
            None => {
                return None;
            },
        };
        let database_write_bytes = match self.database_ingress_size.checked_total() {
            Some(total) => total,
            None => {
                return None;
            },
        };
        let vector_index_read_bytes = match self.vector_egress_size.checked_total() {
            Some(total) => total,
            None => {
                return None;
            },
        };
        let vector_index_write_bytes = match self.vector_ingress_size.checked_total() {
            Some(total) => total,
            None => {
                return None;
            },
        };
        Some(
            AggregatedFunctionUsageStats {
                database_read_bytes,
                database_write_bytes,
                storage_read_bytes: self.storage_egress_size,
                storage_write_bytes: self.storage_ingress_size,
                vector_index_read_bytes,
                vector_index_write_bytes,
            },
        )
    }

    /// Adds the usage of `other` to this one.
    pub fn merge(&mut self, other: FunctionUsageStats)
        requires
            old(self)@.merge(other@).fits(),
        ensures
            final(self)@ == old(self)@.merge(other@),
    {
        self.storage_calls.merge(&other.storage_calls);
        self.storage_ingress_size = self.storage_ingress_size + other.storage_ingress_size;
        self.storage_egress_size = self.storage_egress_size + other.storage_egress_size;
        self.database_ingress_size.merge(&other.database_ingress_size);
        self.database_egress_size.merge(&other.database_egress_size);
        self.vector_ingress_size.merge(&other.vector_ingress_size);
        self.vector_egress_size.merge(&other.vector_egress_size);
    }

    /// Whether the usage of `other` can be added to this one with every
    /// counter in 64 bits.
    pub fn can_merge(&self, other: &FunctionUsageStats) -> (fits: bool)
        ensures
            fits == self@.merge(other@).fits(),
    {
        self.storage_calls.can_merge(&other.storage_calls) && self.storage_ingress_size
            <= u64::MAX - other.storage_ingress_size && self.storage_egress_size <= u64::MAX
            - other.storage_egress_size && self.database_ingress_size.can_merge(
            &other.database_ingress_size,
        ) && self.database_egress_size.can_merge(&other.database_egress_size)
            && self.vector_ingress_size.can_merge(&other.vector_ingress_size)
            && self.vector_egress_size.can_merge(&other.vector_egress_size)
    }
}

} // verus!
