//! What tracks the calls of the storage APIs and the bytes they move.

use crate::events::{UsageEvent, UsageEventView};
use vstd::prelude::*;

verus! {

/// The bytes written to storage that the storage-bandwidth events among
/// `events` tell of.
pub open spec fn reported_storage_ingress(events: Seq<UsageEventView>) -> nat
    decreases events.len(),
{
    if events.len() == 0 {
        0
    } else {
        reported_storage_ingress(events.drop_last()) + match events.last() {
            UsageEventView::StorageBandwidth { ingress, .. } => ingress,
            _ => 0,
        }
    }
}

/// The bytes read from storage that the storage-bandwidth events among
/// `events` tell of.
pub open spec fn reported_storage_egress(events: Seq<UsageEventView>) -> nat
    decreases events.len(),
{
    if events.len() == 0 {
        0
    } else {
        reported_storage_egress(events.drop_last()) + match events.last() {
            UsageEventView::StorageBandwidth { egress, .. } => egress,
            _ => 0,
        }
    }
}

/// A single event tells of the bytes that it carries, if it is a
/// storage-bandwidth event, and of none else.
pub proof fn lemma_reported_by_one(event: UsageEventView)
    ensures
        reported_storage_ingress(seq![event]) == match event {
            UsageEventView::StorageBandwidth { ingress, .. } => ingress,
            _ => 0,
        },
        reported_storage_egress(seq![event]) == match event {
            UsageEventView::StorageBandwidth { egress, .. } => egress,
            _ => 0,
        },
{
    assert(seq![event].drop_last() =~= Seq::empty());
    reveal_with_fuel(reported_storage_ingress, 2);
    reveal_with_fuel(reported_storage_egress, 2);
}

/// Tracks the bytes that one storage call moves. Each recording hands back
/// the events that it gives rise to, for the event sink. Whatever the
/// tracker, the bytes recorded are accounted for once: in the counters that
/// the tracker buffers, or in the events handed back.
pub trait StorageCallTracker {
    /// Whether `ingress_size` more bytes written can be recorded.
    spec fn accepts_storage_ingress(&self, ingress_size: u64) -> bool;

    /// Whether `egress_size` more bytes read can be recorded.
    spec fn accepts_storage_egress(&self, egress_size: u64) -> bool;

    /// The bytes written to storage that the tracker buffers.
    spec fn buffered_storage_ingress(&self) -> nat;

    /// The bytes read from storage that the tracker buffers.
    spec fn buffered_storage_egress(&self) -> nat;

    /// Records bytes written to storage.
    fn track_storage_ingress_size(&mut self, ingress_size: u64) -> (emitted: Vec<UsageEvent>)
        requires
            old(self).accepts_storage_ingress(ingress_size),
        ensures
            final(self).buffered_storage_ingress() + reported_storage_ingress(emitted.deep_view())
                == old(self).buffered_storage_ingress() + ingress_size,
            final(self).buffered_storage_egress() + reported_storage_egress(emitted.deep_view())
                == old(self).buffered_storage_egress(),
    ;

    /// Records bytes read from storage.
    fn track_storage_egress_size(&mut self, egress_size: u64) -> (emitted: Vec<UsageEvent>)
        requires
            old(self).accepts_storage_egress(egress_size),
        ensures
            final(self).buffered_storage_ingress() + reported_storage_ingress(emitted.deep_view())
                == old(self).buffered_storage_ingress(),
            final(self).buffered_storage_egress() + reported_storage_egress(emitted.deep_view())
                == old(self).buffered_storage_egress() + egress_size,
    ;
}

/// Tracks calls of the storage APIs in a buffer of its own, and hands out,
/// for each call, the tracker of the bytes that the call moves.
pub trait StorageUsageTracker {
    /// What tracks the bytes of one call.
    type CallTracker: StorageCallTracker;

    /// Whether one more call of `storage_api` can be counted.
    spec fn accepts_storage_call(&self, storage_api: Seq<char>) -> bool;

    /// Counts one call of `storage_api`.
    fn track_storage_call(&mut self, storage_api: &'static str) -> (call: &mut Self::CallTracker)
        requires
            old(self).accepts_storage_call(storage_api@),
    ;
}

} // verus!
