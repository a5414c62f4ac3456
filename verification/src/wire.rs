//! The usage counters as a wire message, and back.

use crate::counters::{listing_of, CounterMap};
use crate::listing::{
    collect_entries, lemma_sorted_entries_list, lemma_sorted_listing_collects, sorted_entries,
};
use crate::stats::{FunctionUsageStats, UsageStatsView};
use vstd::prelude::*;
use vstd::std_specs::convert::{FromSpecImpl, TryFromSpecImpl};

verus! {

/// One named counter of a wire message. Both fields are optional on the wire.
#[derive(Clone, Debug, PartialEq, Eq)]
pub struct CounterWithTagProto {
    pub name: Option<String>,
    pub count: Option<u64>,
}

/// The wire message of the usage counters of one scope. The two storage
/// sizes are optional on the wire; a message without one of them is not
/// accepted.
#[derive(Clone, Debug, PartialEq, Eq)]
pub struct FunctionUsageStatsProto {
    pub storage_calls: Vec<CounterWithTagProto>,
    pub storage_ingress_size: Option<u64>,
    pub storage_egress_size: Option<u64>,
    pub database_ingress_size: Vec<CounterWithTagProto>,
    pub database_egress_size: Vec<CounterWithTagProto>,
    pub vector_ingress_size: Vec<CounterWithTagProto>,
    pub vector_egress_size: Vec<CounterWithTagProto>,
}

/// What a named counter of a wire message holds.
pub struct CounterWithTagView {
    pub name: Option<Seq<char>>,
    pub count: Option<nat>,
}

/// What a wire message holds.
pub struct UsageStatsProtoView {
    pub storage_calls: Seq<CounterWithTagView>,
    pub storage_ingress_size: Option<nat>,
    pub storage_egress_size: Option<nat>,
    pub database_ingress_size: Seq<CounterWithTagView>,
    pub database_egress_size: Seq<CounterWithTagView>,
    pub vector_ingress_size: Seq<CounterWithTagView>,
    pub vector_egress_size: Seq<CounterWithTagView>,
}

/// The number on the wire as a mathematical number.
pub open spec fn size_view(size: Option<u64>) -> Option<nat> {
    match size {
        Some(size) => Some(size as nat),
        None => None,
    }
}

impl DeepView for CounterWithTagProto {
    type V = CounterWithTagView;

    open spec fn deep_view(&self) -> CounterWithTagView {
        CounterWithTagView {
            name: match self.name {
                Some(name) => Some(name@),
                None => None,
            },
            count: size_view(self.count),
        }
    }
}

impl DeepView for FunctionUsageStatsProto {
    type V = UsageStatsProtoView;

    open spec fn deep_view(&self) -> UsageStatsProtoView {
        UsageStatsProtoView {
            storage_calls: self.storage_calls.deep_view(),
            storage_ingress_size: size_view(self.storage_ingress_size),
            storage_egress_size: size_view(self.storage_egress_size),
            database_ingress_size: self.database_ingress_size.deep_view(),
            database_egress_size: self.database_egress_size.deep_view(),
            vector_ingress_size: self.vector_ingress_size.deep_view(),
            vector_egress_size: self.vector_egress_size.deep_view(),
        }
    }
}

/// The field that a wire message lacks.
#[derive(Clone, Copy, Debug, PartialEq, Eq, Structural)]
pub enum MissingField {
    /// The name of a named counter.
    Tag,
    /// The count of a named counter.
    Count,
    StorageIngressSize,
    StorageEgressSize,
}

impl MissingField {
    /// What is missing, in words.
    pub open spec fn message_view(&self) -> Seq<char> {
        match *self {
            MissingField::Tag => "Missing `tag` field"@,
            MissingField::Count => "Missing `count` field"@,
            MissingField::StorageIngressSize => "Missing `storage_ingress_size` field"@,
            MissingField::StorageEgressSize => "Missing `storage_egress_size` field"@,
        }
    }

    /// What is missing, in words.
    pub fn message(&self) -> (message: &'static str)
        ensures
            message@ == self.message_view(),
    {
        match self {
            MissingField::Tag => "Missing `tag` field",
            MissingField::Count => "Missing `count` field",
            MissingField::StorageIngressSize => "Missing `storage_ingress_size` field",
            MissingField::StorageEgressSize => "Missing `storage_egress_size` field",
        }
    }
}

/// The named counters of the entries, each with its name and its count.
pub open spec fn tagged_counters(entries: Seq<(Seq<char>, nat)>) -> Seq<CounterWithTagView> {
    Seq::new(
        entries.len(),
        |i: int| CounterWithTagView { name: Some(entries[i].0), count: Some(entries[i].1) },
    )
}

/// The wire message of a usage: each map as its named counters in the order
/// of names, the two storage sizes present.
pub open spec fn encode(stats: UsageStatsView) -> UsageStatsProtoView {
    UsageStatsProtoView {
        storage_calls: tagged_counters(sorted_entries(stats.storage_calls)),
        storage_ingress_size: Some(stats.storage_ingress_size),
        storage_egress_size: Some(stats.storage_egress_size),
        database_ingress_size: tagged_counters(sorted_entries(stats.database_ingress_size)),
        database_egress_size: tagged_counters(sorted_entries(stats.database_egress_size)),
        vector_ingress_size: tagged_counters(sorted_entries(stats.vector_ingress_size)),
        vector_egress_size: tagged_counters(sorted_entries(stats.vector_egress_size)),
    }
}

/// The field that a named counter lacks: its name, or else its count.
pub open spec fn missing_in(counter: CounterWithTagView) -> Option<MissingField> {
    if counter.name is None {
        Some(MissingField::Tag)
    } else if counter.count is None {
        Some(MissingField::Count)
    } else {
        None
    }
}

/// The field that the first incomplete counter lacks.
pub open spec fn first_missing(counts: Seq<CounterWithTagView>) -> Option<MissingField>
    decreases counts.len(),
{
    if counts.len() == 0 {
        None
    } else if missing_in(counts[0]) is Some {
        missing_in(counts[0])
    } else {
        first_missing(counts.drop_first())
    }
}

/// The names and counts of named counters that lack neither.
pub open spec fn untagged(counts: Seq<CounterWithTagView>) -> Seq<(Seq<char>, nat)> {
    Seq::new(counts.len(), |i: int| (counts[i].name->0, counts[i].count->0))
}

/// The entries that named counters stand for, or the field that the first
/// incomplete one lacks.
pub open spec fn decode_entries(counts: Seq<CounterWithTagView>) -> Result<
    Seq<(Seq<char>, nat)>,
    MissingField,
> {
    match first_missing(counts) {
        Some(missing) => Err(missing),
        None => Ok(untagged(counts)),
    }
}

/// The usage that a wire message stands for, or the first field that it
/// lacks. The fields are read in this order: the storage calls, the two
/// storage sizes, then database ingress and egress, then vector ingress and
/// egress. Of two counters with one name the later one stays.
pub open spec fn decode(proto: UsageStatsProtoView) -> Result<UsageStatsView, MissingField> {
    if let Err(missing) = decode_entries(proto.storage_calls) {
        Err(missing)
    } else if proto.storage_ingress_size is None {
        Err(MissingField::StorageIngressSize)
    } else if proto.storage_egress_size is None {
        Err(MissingField::StorageEgressSize)
    } else if let Err(missing) = decode_entries(proto.database_ingress_size) {
        Err(missing)
    } else if let Err(missing) = decode_entries(proto.database_egress_size) {
        Err(missing)
    } else if let Err(missing) = decode_entries(proto.vector_ingress_size) {
        Err(missing)
    } else if let Err(missing) = decode_entries(proto.vector_egress_size) {
        Err(missing)
    } else {
        Ok(
            UsageStatsView {
                storage_calls: collect_entries(untagged(proto.storage_calls)),
                storage_ingress_size: proto.storage_ingress_size->0,
                storage_egress_size: proto.storage_egress_size->0,
                database_ingress_size: collect_entries(untagged(proto.database_ingress_size)),
                database_egress_size: collect_entries(untagged(proto.database_egress_size)),
                vector_ingress_size: collect_entries(untagged(proto.vector_ingress_size)),
                vector_egress_size: collect_entries(untagged(proto.vector_egress_size)),
            },
        )
    }
}

/// The usage as what the exec results of decoding are compared with.
pub open spec fn decoded_view(decoded: Result<FunctionUsageStats, MissingField>) -> Result<
    UsageStatsView,
    MissingField,
> {
    match decoded {
        Ok(stats) => Ok(stats@),
        Err(missing) => Err(missing),
    }
}

/// Named counters that were made from entries lack nothing, and stand for
/// those entries.
pub proof fn lemma_decode_tagged(entries: Seq<(Seq<char>, nat)>)
    ensures
        decode_entries(tagged_counters(entries)) == Ok::<_, MissingField>(entries),
    decreases entries.len(),
{
    let counts = tagged_counters(entries);
    if entries.len() > 0 {
        assert(counts.drop_first() =~= tagged_counters(entries.drop_first()));
        lemma_decode_tagged(entries.drop_first());
    }
    assert(untagged(counts) =~= entries);
}

/// Encoding a usage and decoding the message gives the usage back.
pub proof fn lemma_decode_encode(stats: UsageStatsView)
    requires
        stats.finite(),
    ensures
        decode(encode(stats)) == Ok::<_, MissingField>(stats),
{
    lemma_collect_tagged(stats.storage_calls);
    lemma_collect_tagged(stats.database_ingress_size);
    lemma_collect_tagged(stats.database_egress_size);
    lemma_collect_tagged(stats.vector_ingress_size);
    lemma_collect_tagged(stats.vector_egress_size);
}

/// The named counters of a map decode to the map.
proof fn lemma_collect_tagged(m: Map<Seq<char>, nat>)
    requires
        m.dom().finite(),
    ensures
        decode_entries(tagged_counters(sorted_entries(m))) == Ok::<_, MissingField>(
            sorted_entries(m),
        ),
        collect_entries(untagged(tagged_counters(sorted_entries(m)))) == m,
{
    lemma_sorted_entries_list(m);
    lemma_decode_tagged(sorted_entries(m));
    lemma_sorted_listing_collects(sorted_entries(m), m);
}

/// A message that lacks one of the two storage sizes is not accepted.
pub proof fn lemma_decode_needs_storage_sizes(proto: UsageStatsProtoView)
    requires
        proto.storage_ingress_size is None || proto.storage_egress_size is None,
    ensures
        decode(proto) is Err,
{
}

/// A message with a named counter that lacks its name or its count is not
/// accepted.
pub proof fn lemma_decode_needs_complete_counters(proto: UsageStatsProtoView, at: int)
    requires
        (0 <= at < proto.storage_calls.len() && missing_in(proto.storage_calls[at]) is Some) || (0
            <= at < proto.database_ingress_size.len() && missing_in(proto.database_ingress_size[at])
            is Some) || (0 <= at < proto.database_egress_size.len() && missing_in(
            proto.database_egress_size[at],
        ) is Some) || (0 <= at < proto.vector_ingress_size.len() && missing_in(
            proto.vector_ingress_size[at],
        ) is Some) || (0 <= at < proto.vector_egress_size.len() && missing_in(
            proto.vector_egress_size[at],
        ) is Some),
    ensures
        decode(proto) is Err,
{
    if 0 <= at < proto.storage_calls.len() {
        lemma_first_missing(proto.storage_calls, at);
    }
    if 0 <= at < proto.database_ingress_size.len() {
        lemma_first_missing(proto.database_ingress_size, at);
    }
    if 0 <= at < proto.database_egress_size.len() {
        lemma_first_missing(proto.database_egress_size, at);
    }
    if 0 <= at < proto.vector_ingress_size.len() {
        lemma_first_missing(proto.vector_ingress_size, at);
    }
    if 0 <= at < proto.vector_egress_size.len() {
        lemma_first_missing(proto.vector_egress_size, at);
    }
}

/// Where one counter is incomplete, a first one is.
proof fn lemma_first_missing(counts: Seq<CounterWithTagView>, at: int)
    requires
        0 <= at < counts.len(),
    ensures
        missing_in(counts[at]) is Some ==> first_missing(counts) is Some,
    decreases counts.len(),
{
    if at > 0 {
        lemma_first_missing(counts.drop_first(), at - 1);
    }
}

/// The counters as the named counters of a wire message, in the order of
/// names.
pub fn to_by_tag_count(counts: &CounterMap) -> (tagged: Vec<CounterWithTagProto>)
    ensures
        tagged.deep_view() == tagged_counters(sorted_entries(counts@)),
{
    let ghost entries = sorted_entries(counts@);
    let n = counts.len();
    let mut tagged: Vec<CounterWithTagProto> = Vec::new();
    let mut i: usize = 0;
    while i < n
        invariant
            i <= n,
            n == counts@.len(),
            n == entries.len(),
            entries == sorted_entries(counts@),
            tagged.deep_view() =~= tagged_counters(entries.take(i as int)),
        decreases n - i,
    {
        let ghost before = tagged.deep_view();
        let counter = CounterWithTagProto {
            name: Some(counts.name_at(i).clone()),
            count: Some(counts.count_at(i)),
        };
        tagged.push(counter);
        assert(tagged.deep_view() =~= before.push(counter.deep_view()));
        i += 1;
    }
    tagged
}

/// The names and counts of the named counters of a wire message, or the
/// field that the first incomplete one lacks.
pub fn from_by_tag_count(counts: Vec<CounterWithTagProto>) -> (entries: Result<
    Vec<(String, u64)>,
    MissingField,
>)
    ensures
        match entries {
            Ok(entries) => decode_entries(counts.deep_view()) == Ok::<_, MissingField>(
                listing_of(entries@),
            ),
            Err(missing) => decode_entries(counts.deep_view()) == Err::<
                Seq<(Seq<char>, nat)>,
                _,
            >(missing),
        },
{
    let ghost all = counts.deep_view();
    let n = counts.len();
    let mut entries: Vec<(String, u64)> = Vec::new();
    let mut i: usize = 0;
    assert(all.skip(0) =~= all);
    while i < n
        invariant
            i <= n,
            n == counts.len(),
            all == counts.deep_view(),
            entries@.len() == i,
            first_missing(all) == first_missing(all.skip(i as int)),
            forall|k: int| 0 <= k < i ==> #[trigger] listing_of(entries@)[k] == untagged(all)[k],
        decreases n - i,
    {
        let ghost rest = all.skip(i as int);
        assert(rest.drop_first() =~= all.skip(i + 1));
        let name = match &counts[i].name {
            Some(name) => name.clone(),
            None => {
                return Err(MissingField::Tag);
            },
        };
        let count = match counts[i].count {
            Some(count) => count,
            None => {
                return Err(MissingField::Count);
            },
        };
        let ghost before = listing_of(entries@);
        entries.push((name, count));
        assert forall|k: int| 0 <= k < i + 1 implies #[trigger] listing_of(entries@)[k]
            == untagged(all)[k] by {
            if k < i {
                assert(listing_of(entries@)[k] == before[k]);
            }
        }
        i += 1;
    }
    assert(listing_of(entries@) =~= untagged(all));
    Ok(entries)
}

impl From<FunctionUsageStats> for FunctionUsageStatsProto {
    /// The wire message of a usage.
    fn from(stats: FunctionUsageStats) -> (proto: FunctionUsageStatsProto)
        ensures
            proto.deep_view() == encode(stats@),
    {
        FunctionUsageStatsProto {
            storage_calls: to_by_tag_count(&stats.storage_calls),
            storage_ingress_size: Some(stats.storage_ingress_size),
            storage_egress_size: Some(stats.storage_egress_size),
            database_ingress_size: to_by_tag_count(&stats.database_ingress_size),
            database_egress_size: to_by_tag_count(&stats.database_egress_size),
            vector_ingress_size: to_by_tag_count(&stats.vector_ingress_size),
            vector_egress_size: to_by_tag_count(&stats.vector_egress_size),
        }
    }
}

impl FromSpecImpl<FunctionUsageStats> for FunctionUsageStatsProto {
    /// A message is known by what it holds, not as a value: see `from`.
    open spec fn obeys_from_spec() -> bool {
        false
    }

    open spec fn from_spec(stats: FunctionUsageStats) -> FunctionUsageStatsProto {
        choose|proto: FunctionUsageStatsProto| proto.deep_view() == encode(stats@)
    }
}

impl TryFrom<FunctionUsageStatsProto> for FunctionUsageStats {
    type Error = MissingField;

    /// The usage that a wire message stands for, or the first field that it
    /// lacks.
    fn try_from(proto: FunctionUsageStatsProto) -> (decoded: Result<
        FunctionUsageStats,
        MissingField,
    >)
        ensures
            decoded_view(decoded) == decode(proto.deep_view()),
    {
        let storage_calls = match from_by_tag_count(proto.storage_calls) {
            Ok(entries) => CounterMap::from_entries(entries),
            Err(missing) => {
                return Err(missing);
            },
        };
        let storage_ingress_size = match proto.storage_ingress_size {
            Some(size) => size,
            None => {
                return Err(MissingField::StorageIngressSize);
            },
        };
        let storage_egress_size = match proto.storage_egress_size {
            Some(size) => size,
            None => {
                return Err(MissingField::StorageEgressSize);
            },
        };
        let database_ingress_size = match from_by_tag_count(proto.database_ingress_size) {
            Ok(entries) => CounterMap::from_entries(entries),
            Err(missing) => {
                return Err(missing);
            },
        };
        let database_egress_size = match from_by_tag_count(proto.database_egress_size) {
            Ok(entries) => CounterMap::from_entries(entries),
            Err(missing) => {
                return Err(missing);
            },
        };
        let vector_ingress_size = match from_by_tag_count(proto.vector_ingress_size) {
            Ok(entries) => CounterMap::from_entries(entries),
            Err(missing) => {
                return Err(missing);
            },
        };
        let vector_egress_size = match from_by_tag_count(proto.vector_egress_size) {
            Ok(entries) => CounterMap::from_entries(entries),
            Err(missing) => {
                return Err(missing);
            },
        };
        Ok(
            FunctionUsageStats {
                storage_calls,
                storage_ingress_size,
                storage_egress_size,
                database_ingress_size,
                database_egress_size,
                vector_ingress_size,
                vector_egress_size,
            },
        )
    }
}

impl TryFromSpecImpl<FunctionUsageStatsProto> for FunctionUsageStats {
    /// A usage is known by what it holds, not as a value: see `try_from`.
    open spec fn obeys_try_from_spec() -> bool {
        false
    }

    open spec fn try_from_spec(proto: FunctionUsageStatsProto) -> Result<
        FunctionUsageStats,
        MissingField,
    > {
        choose|decoded: Result<FunctionUsageStats, MissingField>|
            decoded_view(decoded) == decode(proto.deep_view())
    }
}

} // verus!
