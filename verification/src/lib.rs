//! Accounting of the storage, database and vector-index usage of function
//! executions.
//!
//! A [`FunctionUsageTracker`] buffers the counters of one execution. At its
//! end they are gathered as [`FunctionUsageStats`], and a [`UsageCounter`]
//! turns them into the [`UsageEvent`]s that go to the event sink.

pub mod bandwidth;
pub mod counters;
pub mod events;
pub mod key_order;
pub mod listing;
pub mod stats;
pub mod storage;
pub mod tracker;
pub mod usage_counter;
pub mod wire;

pub use counters::CounterMap;
pub use events::{CallType, ModuleEnvironment, UdfIdentifier, UsageEvent};
pub use stats::{AggregatedFunctionUsageStats, FunctionUsageStats};
pub use storage::{StorageCallTracker, StorageUsageTracker};
pub use tracker::FunctionUsageTracker;
pub use usage_counter::{IndependentStorageCallTracker, UsageCounter};
pub use wire::{
    from_by_tag_count, to_by_tag_count, CounterWithTagProto, FunctionUsageStatsProto,
    MissingField,
};
