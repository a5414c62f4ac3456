//! Named counters: a map from names to unsigned 64-bit counts, kept in the
//! order of names.

use crate::key_order::{
    key_lt, key_order, lemma_key_lt_irreflexive, lemma_key_lt_transitive, KeyOrder,
};
use crate::listing::{
    collect_entries, is_sorted_listing, lemma_collect_entries_dom, lemma_collect_entries_sorted,
    lemma_insertion_point, lemma_listing_insert, lemma_listing_len, lemma_listing_update,
    lemma_sorted_entries_is, lemma_sorted_entries_list, lemma_sorted_listing_collects,
    sorted_entries, strictly_increasing,
};
use vstd::prelude::*;
use vstd::std_specs::cmp::PartialEqSpecImpl;

verus! {

/// The count that `m` holds for `name`: zero where it holds none.
pub open spec fn count_of(m: Map<Seq<char>, nat>, name: Seq<char>) -> nat {
    if m.contains_key(name) {
        m[name]
    } else {
        0
    }
}

/// The counters with `amount` added to the count of `name`, which starts at
/// zero.
pub open spec fn counters_add(m: Map<Seq<char>, nat>, name: Seq<char>, amount: nat) -> Map<
    Seq<char>,
    nat,
> {
    m.insert(name, count_of(m, name) + amount)
}

/// The counters of `a` and `b` added up, name by name. A name is in the
/// result if it is in either.
pub open spec fn counters_merge(a: Map<Seq<char>, nat>, b: Map<Seq<char>, nat>) -> Map<
    Seq<char>,
    nat,
> {
    Map::new(
        |name: Seq<char>| a.contains_key(name) || b.contains_key(name),
        |name: Seq<char>| count_of(a, name) + count_of(b, name),
    )
}

/// Every count of `m` fits in 64 bits.
pub open spec fn counters_fit(m: Map<Seq<char>, nat>) -> bool {
    forall|name: Seq<char>| m.contains_key(name) ==> #[trigger] m[name] <= u64::MAX
}

/// The counts of a sequence of entries, added up.
pub open spec fn sum_counts(s: Seq<(Seq<char>, nat)>) -> nat
    decreases s.len(),
{
    if s.len() == 0 {
        0
    } else {
        sum_counts(s.drop_last()) + s.last().1
    }
}

/// The counts of a finite map, added up.
pub open spec fn counters_total(m: Map<Seq<char>, nat>) -> nat {
    sum_counts(sorted_entries(m))
}

/// Counters by name. No name occurs twice, and a name that was counted stays,
/// also with a count of zero.
#[derive(Debug)]
pub struct CounterMap {
    entries: Vec<(String, u64)>,
}

/// The entries as names and numbers.
pub open spec fn listing_of(entries: Seq<(String, u64)>) -> Seq<(Seq<char>, nat)> {
    Seq::new(entries.len(), |i: int| (entries[i].0@, entries[i].1 as nat))
}

impl View for CounterMap {
    type V = Map<Seq<char>, nat>;

    closed spec fn view(&self) -> Map<Seq<char>, nat> {
        collect_entries(self.listing())
    }
}

impl CounterMap {
    spec fn listing(&self) -> Seq<(Seq<char>, nat)> {
        listing_of(self.entries@)
    }

    #[verifier::type_invariant]
    spec fn well_formed(&self) -> bool {
        strictly_increasing(self.listing())
    }

    /// The map of a counter map is finite, and its counts fit in 64 bits.
    pub proof fn lemma_view_valid(&self)
        ensures
            self@.dom().finite(),
            counters_fit(self@),
    {
        let s = self.listing();
        lemma_collect_entries_dom(s);
        lemma_collect_entries_value(s);
    }

    proof fn lemma_listed(&self)
        requires
            self.well_formed(),
        ensures
            is_sorted_listing(self.listing(), self@),
            sorted_entries(self@) == self.listing(),
    {
        lemma_collect_entries_sorted(self.listing());
        lemma_sorted_entries_is(self.listing(), self@);
    }

    /// No counters.
    pub fn new() -> (counters: CounterMap)
        ensures
            counters@ == Map::<Seq<char>, nat>::empty(),
    {
        CounterMap { entries: Vec::new() }
    }

    /// The number of names.
    pub fn len(&self) -> (n: usize)
        ensures
            n == self@.len(),
            n == sorted_entries(self@).len(),
    {
        proof {
            use_type_invariant(self);
            self.lemma_listed();
            lemma_listing_len(self.listing(), self@);
        }
        self.entries.len()
    }

    /// Where `name` stands among the entries, or would stand, and whether it
    /// is there.
    fn position(&self, name: &str) -> (at: (usize, bool))
        ensures
            at.0 <= self.listing().len(),
            at.1 ==> at.0 < self.listing().len() && self.listing()[at.0 as int].0 == name@,
            !at.1 ==> forall|i: int|
                0 <= i < at.0 ==> key_lt(#[trigger] self.listing()[i].0, name@),
            !at.1 ==> forall|i: int|
                at.0 <= i < self.listing().len() ==> key_lt(name@, #[trigger] self.listing()[i].0),
    {
        proof {
            use_type_invariant(self);
        }
        let mut lo: usize = 0;
        let mut hi: usize = self.entries.len();
        while lo < hi
            invariant
                lo <= hi <= self.entries@.len(),
                self.listing().len() == self.entries@.len(),
                strictly_increasing(self.listing()),
                forall|i: int| 0 <= i < lo ==> key_lt(#[trigger] self.listing()[i].0, name@),
                forall|i: int|
                    hi <= i < self.listing().len() ==> key_lt(
                        name@,
                        #[trigger] self.listing()[i].0,
                    ),
            decreases hi - lo,
        {
            let mid = lo + (hi - lo) / 2;
            let order = key_order(self.entries[mid].0.as_str(), name);
            match order {
                KeyOrder::Same => {
                    return (mid, true);
                },
                KeyOrder::Before => {
                    proof {
                        assert forall|i: int| 0 <= i < mid + 1 implies key_lt(
                            #[trigger] self.listing()[i].0,
                            name@,
                        ) by {
                            if i < mid {
                                lemma_key_lt_transitive(
                                    self.listing()[i].0,
                                    self.listing()[mid as int].0,
                                    name@,
                                );
                            }
                        }
                    }
                    lo = mid + 1;
                },
                KeyOrder::After => {
                    proof {
                        assert forall|i: int| mid <= i < self.listing().len() implies key_lt(
                            name@,
                            #[trigger] self.listing()[i].0,
                        ) by {
                            if mid < i {
                                lemma_key_lt_transitive(
                                    name@,
                                    self.listing()[mid as int].0,
                                    self.listing()[i].0,
                                );
                            }
                        }
                    }
                    hi = mid;
                },
            }
        }
        (lo, false)
    }

    /// A name that has no place among the entries is not in the map.
    proof fn lemma_absent(&self, name: Seq<char>, at: int)
        requires
            self.well_formed(),
            0 <= at <= self.listing().len(),
            forall|i: int| 0 <= i < at ==> key_lt(#[trigger] self.listing()[i].0, name),
            forall|i: int|
                at <= i < self.listing().len() ==> key_lt(name, #[trigger] self.listing()[i].0),
        ensures
            !self@.contains_key(name),
    {
        self.lemma_listed();
        if self@.contains_key(name) {
            lemma_key_lt_irreflexive(name);
        }
    }

    /// The count of `name`: zero where it was never counted.
    pub fn get(&self, name: &str) -> (count: u64)
        ensures
            count == count_of(self@, name@),
    {
        proof {
            use_type_invariant(self);
            self.lemma_listed();
        }
        let (at, found) = self.position(name);
        if found {
            self.entries[at].1
        } else {
            proof {
                self.lemma_absent(name@, at as int);
            }
            0
        }
    }

    /// Whether `name` was counted.
    pub fn contains_key(&self, name: &str) -> (found: bool)
        ensures
            found == self@.contains_key(name@),
    {
        proof {
            use_type_invariant(self);
            self.lemma_listed();
        }
        let (at, found) = self.position(name);
        proof {
            if found {
                assert(self@.contains_pair(
                    self.listing()[at as int].0,
                    self.listing()[at as int].1,
                ));
            } else {
                self.lemma_absent(name@, at as int);
            }
        }
        found
    }

    /// Adds `amount` to the count of `name`, which starts at zero.
    pub fn add_count(&mut self, name: String, amount: u64)
        requires
            count_of(old(self)@, name@) + amount <= u64::MAX,
        ensures
            final(self)@ == counters_add(old(self)@, name@, amount as nat),
    {
        proof {
            use_type_invariant(&*self);
            self.lemma_listed();
        }
        let (at, found) = self.position(name.as_str());
        let ghost before = self.listing();
        let mut entries: Vec<(String, u64)> = Vec::new();
        std::mem::swap(&mut entries, &mut self.entries);
        if found {
            let count = entries[at].1;
            entries.set(at, (name, count + amount));
            proof {
                lemma_listing_update(before, at as int, (count + amount) as nat);
            }
        } else {
            proof {
                old(self).lemma_absent(name@, at as int);
                lemma_listing_insert(before, at as int, name@, amount as nat);
            }
            entries.insert(at, (name, amount));
        }
        assert(listing_of(entries@) =~= if found {
            before.update(
                at as int,
                (before[at as int].0, (count_of(old(self)@, name@) + amount) as nat),
            )
        } else {
            before.insert(at as int, (name@, amount as nat))
        });
        self.entries = entries;
    }

    /// Sets the count of `name`, whatever it was.
    pub fn insert(&mut self, name: String, count: u64)
        ensures
            final(self)@ == old(self)@.insert(name@, count as nat),
    {
        proof {
            use_type_invariant(&*self);
        }
        let (at, found) = self.position(name.as_str());
        let ghost before = self.listing();
        let mut entries: Vec<(String, u64)> = Vec::new();
        std::mem::swap(&mut entries, &mut self.entries);
        if found {
            entries.set(at, (name, count));
            proof {
                lemma_listing_update(before, at as int, count as nat);
            }
        } else {
            proof {
                lemma_listing_insert(before, at as int, name@, count as nat);
            }
            entries.insert(at, (name, count));
        }
        assert(listing_of(entries@) =~= if found {
            before.update(at as int, (before[at as int].0, count as nat))
        } else {
            before.insert(at as int, (name@, count as nat))
        });
        self.entries = entries;
    }

    /// Collects the entries into counters. Where a name occurs more than
    /// once, its last entry stays.
    pub fn from_entries(entries: Vec<(String, u64)>) -> (counters: CounterMap)
        ensures
            counters@ == collect_entries(listing_of(entries@)),
    {
        let ghost all = listing_of(entries@);
        let mut counters = CounterMap::new();
        let n = entries.len();
        let mut i: usize = 0;
        while i < n
            invariant
                i <= n,
                n == entries@.len(),
                all == listing_of(entries@),
                counters@ == collect_entries(all.take(i as int)),
            decreases n - i,
        {
            proof {
                assert(all.take(i + 1).drop_last() =~= all.take(i as int));
            }
            counters.insert(entries[i].0.clone(), entries[i].1);
            i += 1;
        }
        assert(all.take(n as int) =~= all);
        counters
    }

    /// The name of the entry at `index`, in the order of names.
    pub fn name_at(&self, index: usize) -> (name: &String)
        requires
            index < self@.len(),
        ensures
            name@ == sorted_entries(self@)[index as int].0,
    {
        proof {
            use_type_invariant(self);
            self.lemma_listed();
            lemma_listing_len(self.listing(), self@);
        }
        &self.entries[index].0
    }

    /// The count of the entry at `index`, in the order of names.
    pub fn count_at(&self, index: usize) -> (count: u64)
        requires
            index < self@.len(),
        ensures
            count == sorted_entries(self@)[index as int].1,
    {
        proof {
            use_type_invariant(self);
            self.lemma_listed();
            lemma_listing_len(self.listing(), self@);
        }
        self.entries[index].1
    }

    /// Adds the counters of `other` to these, name by name.
    pub fn merge(&mut self, other: &CounterMap)
        requires
            counters_fit(counters_merge(old(self)@, other@)),
        ensures
            final(self)@ == counters_merge(old(self)@, other@),
    {
        proof {
            use_type_invariant(other);
            other.lemma_listed();
        }
        let ghost theirs = other.listing();
        let n = other.entries.len();
        let mut i: usize = 0;
        while i < n
            invariant
                i <= n,
                n == other.entries@.len(),
                theirs == other.listing(),
                is_sorted_listing(theirs, other@),
                counters_fit(counters_merge(old(self)@, other@)),
                self@ == counters_merge(old(self)@, collect_entries(theirs.take(i as int))),
            decreases n - i,
        {
            let ghost done = theirs.take(i as int);
            let ghost next = theirs.take(i + 1);
            let ghost name = theirs[i as int].0;
            proof {
                assert(next.drop_last() =~= done);
                lemma_collect_entries_dom(done);
                if collect_entries(done).contains_key(name) {
                    lemma_key_lt_irreflexive(name);
                }
                assert(counters_merge(old(self)@, other@)[name] <= u64::MAX);
            }
            self.add_count(other.entries[i].0.clone(), other.entries[i].1);
            i += 1;
        }
        proof {
            assert(theirs.take(n as int) =~= theirs);
        }
    }

    /// Whether the counters of `other` can be added to these with every sum
    /// in 64 bits.
    pub fn can_merge(&self, other: &CounterMap) -> (fits: bool)
        ensures
            fits == counters_fit(counters_merge(self@, other@)),
    {
        proof {
            use_type_invariant(self);
            use_type_invariant(other);
            self.lemma_listed();
            other.lemma_listed();
        }
        let ghost theirs = other.listing();
        let ghost merged = counters_merge(self@, other@);
        let n = other.entries.len();
        let mut i: usize = 0;
        while i < n
            invariant
                i <= n,
                n == other.entries@.len(),
                theirs == other.listing(),
                merged == counters_merge(self@, other@),
                is_sorted_listing(theirs, other@),
                forall|j: int| 0 <= j < i ==> #[trigger] merged[theirs[j].0] <= u64::MAX,
            decreases n - i,
        {
            let mine = self.get(other.entries[i].0.as_str());
            if mine > u64::MAX - other.entries[i].1 {
                assert(merged[theirs[i as int].0] > u64::MAX);
                return false;
            }
            i += 1;
        }
        true
    }

    /// The sum of all counts.
    pub fn total(&self) -> (sum: u64)
        requires
            counters_total(self@) <= u64::MAX,
        ensures
            sum == counters_total(self@),
    {
        proof {
            use_type_invariant(self);
            self.lemma_listed();
        }
        let ghost all = self.listing();
        let n = self.entries.len();
        let mut sum: u64 = 0;
        let mut i: usize = 0;
        while i < n
            invariant
                i <= n,
                n == self.entries@.len(),
                all == self.listing(),
                sum_counts(all) <= u64::MAX,
                sum == sum_counts(all.take(i as int)),
            decreases n - i,
        {
            proof {
                assert(all.take(i + 1).drop_last() =~= all.take(i as int));
                lemma_sum_counts_grows(all, i + 1);
            }
            sum = sum + self.entries[i].1;
            i += 1;
        }
        assert(all.take(n as int) =~= all);
        sum
    }

    /// The sum of all counts, where it fits in 64 bits.
    pub fn checked_total(&self) -> (sum: Option<u64>)
        ensures
            match sum {
                Some(sum) => sum == counters_total(self@),
                None => counters_total(self@) > u64::MAX,
            },
    {
        proof {
            use_type_invariant(self);
            self.lemma_listed();
        }
        let ghost all = self.listing();
        let n = self.entries.len();
        let mut sum: u64 = 0;
        let mut i: usize = 0;
        while i < n
            invariant
                i <= n,
                n == self.entries@.len(),
                all == self.listing(),
                all == sorted_entries(self@),
                sum == sum_counts(all.take(i as int)),
            decreases n - i,
        {
            proof {
                assert(all.take(i + 1).drop_last() =~= all.take(i as int));
                lemma_sum_counts_grows(all, i + 1);
            }
            match sum.checked_add(self.entries[i].1) {
                Some(next) => {
                    sum = next;
                },
                None => {
                    return None;
                },
            }
            i += 1;
        }
        assert(all.take(n as int) =~= all);
        Some(sum)
    }
}

impl Clone for CounterMap {
    fn clone(&self) -> (copy: CounterMap)
        ensures
            copy@ == self@,
    {
        proof {
            use_type_invariant(self);
        }
        let n = self.entries.len();
        let mut entries: Vec<(String, u64)> = Vec::new();
        let mut i: usize = 0;
        while i < n
            invariant
                i <= n,
                n == self.entries@.len(),
                entries@.len() == i,
                listing_of(entries@) == self.listing().take(i as int),
            decreases n - i,
        {
            let ghost before = entries@;
            entries.push((self.entries[i].0.clone(), self.entries[i].1));
            i += 1;
        }
        assert(self.listing().take(n as int) =~= self.listing());
        CounterMap { entries }
    }
}

impl PartialEq for CounterMap {
    fn eq(&self, other: &CounterMap) -> (same: bool) {
        proof {
            use_type_invariant(self);
            use_type_invariant(other);
            self.lemma_listed();
            other.lemma_listed();
        }
        let n = self.entries.len();
        if n != other.entries.len() {
            return false;
        }
        let mut i: usize = 0;
        while i < n
            invariant
                i <= n,
                n == self.entries@.len(),
                n == other.entries@.len(),
                sorted_entries(self@) == self.listing(),
                sorted_entries(other@) == other.listing(),
                self.listing().take(i as int) == other.listing().take(i as int),
            decreases n - i,
        {
            if self.entries[i].0 != other.entries[i].0 || self.entries[i].1 != other.entries[i].1 {
                assert(self.listing()[i as int] != other.listing()[i as int]);
                return false;
            }
            assert(self.listing().take(i + 1) =~= self.listing().take(i as int).push(
                self.listing()[i as int],
            ));
            assert(other.listing().take(i + 1) =~= other.listing().take(i as int).push(
                other.listing()[i as int],
            ));
            i += 1;
        }
        assert(self.listing().take(n as int) =~= self.listing());
        assert(other.listing().take(n as int) =~= other.listing());
        true
    }
}

impl PartialEqSpecImpl for CounterMap {
    open spec fn obeys_eq_spec() -> bool {
        true
    }

    open spec fn eq_spec(&self, other: &CounterMap) -> bool {
        self@ == other@
    }
}

impl Eq for CounterMap {

}

/// An entry put into a sequence adds its count to the sum.
proof fn lemma_sum_counts_insert(s: Seq<(Seq<char>, nat)>, at: int, entry: (Seq<char>, nat))
    requires
        0 <= at <= s.len(),
    ensures
        sum_counts(s.insert(at, entry)) == sum_counts(s) + entry.1,
    decreases s.len(),
{
    let t = s.insert(at, entry);
    if at == s.len() {
        assert(t.drop_last() =~= s);
    } else {
        assert(t.drop_last() =~= s.drop_last().insert(at, entry));
        lemma_sum_counts_insert(s.drop_last(), at, entry);
    }
}

/// No counters add up to zero.
pub proof fn lemma_counters_total_empty()
    ensures
        counters_total(Map::empty()) == 0,
{
    let none = Seq::<(Seq<char>, nat)>::empty();
    lemma_sorted_entries_is(none, Map::empty());
}

/// A new name adds its count to the total, wherever it stands in the order
/// of names.
pub proof fn lemma_counters_total_insert(m: Map<Seq<char>, nat>, name: Seq<char>, count: nat)
    requires
        m.dom().finite(),
        !m.contains_key(name),
    ensures
        counters_total(m.insert(name, count)) == counters_total(m) + count,
{
    lemma_sorted_entries_list(m);
    let s = sorted_entries(m);
    let at = lemma_insertion_point(s, name);
    let t = s.insert(at, (name, count));
    lemma_listing_insert(s, at, name, count);
    lemma_sorted_listing_collects(s, m);
    lemma_collect_entries_sorted(t);
    lemma_sorted_entries_is(t, m.insert(name, count));
    lemma_sum_counts_insert(s, at, (name, count));
}

/// The total is the count of any one name and the total of the others.
pub proof fn lemma_counters_total_remove(m: Map<Seq<char>, nat>, name: Seq<char>)
    requires
        m.dom().finite(),
        m.contains_key(name),
    ensures
        counters_total(m) == counters_total(m.remove(name)) + m[name],
{
    lemma_counters_total_insert(m.remove(name), name, m[name]);
    assert(m.remove(name).insert(name, m[name]) =~= m);
}

/// The total of merged counters is the sum of the two totals.
pub proof fn lemma_counters_total_merge(a: Map<Seq<char>, nat>, b: Map<Seq<char>, nat>)
    requires
        a.dom().finite(),
        b.dom().finite(),
    ensures
        counters_merge(a, b).dom().finite(),
        counters_total(counters_merge(a, b)) == counters_total(a) + counters_total(b),
    decreases b.dom().len(),
{
    let merged = counters_merge(a, b);
    assert(merged.dom() =~= a.dom().union(b.dom()));
    if b.dom().len() == 0 {
        assert(b =~= Map::empty());
        assert(merged =~= a);
        lemma_counters_total_empty();
    } else {
        let name = b.dom().choose();
        let rest = b.remove(name);
        let merged_rest = counters_merge(a, rest);
        lemma_counters_total_merge(a, rest);
        lemma_counters_total_remove(b, name);
        lemma_counters_total_remove(merged, name);
        assert(merged.remove(name) =~= merged_rest.remove(name));
        if a.contains_key(name) {
            lemma_counters_total_remove(merged_rest, name);
        } else {
            assert(merged_rest.remove(name) =~= merged_rest);
        }
    }
}

/// A longer stretch of a sequence of entries has no smaller sum.
proof fn lemma_sum_counts_grows(s: Seq<(Seq<char>, nat)>, upto: int)
    requires
        0 <= upto <= s.len(),
    ensures
        sum_counts(s.take(upto)) <= sum_counts(s),
    decreases s.len() - upto,
{
    if upto < s.len() {
        assert(s.take(upto + 1).drop_last() =~= s.take(upto));
        lemma_sum_counts_grows(s, upto + 1);
    } else {
        assert(s.take(upto) =~= s);
    }
}

/// Each count of the collected map is the count of one of the entries.
proof fn lemma_collect_entries_value(s: Seq<(Seq<char>, nat)>)
    ensures
        forall|k: Seq<char>| #[trigger]
            collect_entries(s).contains_key(k) ==> exists|i: int|
                0 <= i < s.len() && #[trigger] s[i].1 == collect_entries(s)[k],
    decreases s.len(),
{
    if s.len() > 0 {
        let front = s.drop_last();
        lemma_collect_entries_value(front);
        assert forall|k: Seq<char>| #[trigger]
            collect_entries(s).contains_key(k) implies exists|i: int|
            0 <= i < s.len() && #[trigger] s[i].1 == collect_entries(s)[k] by {
            if k != s.last().0 {
                let i = choose|i: int|
                    0 <= i < front.len() && #[trigger] front[i].1 == collect_entries(front)[k];
            }
        }
    }
}

} // verus!
