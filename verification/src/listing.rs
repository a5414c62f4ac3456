//! Finite maps keyed by name, and their listings in the order of names.

use crate::key_order::{
    key_lt, lemma_key_lt_asymmetric, lemma_key_lt_total, lemma_key_lt_transitive,
};
use vstd::prelude::*;

verus! {

/// The map that a sequence of named entries collects to. Where a name occurs
/// more than once, its last entry stays.
pub open spec fn collect_entries<V>(s: Seq<(Seq<char>, V)>) -> Map<Seq<char>, V>
    decreases s.len(),
{
    if s.len() == 0 {
        Map::empty()
    } else {
        collect_entries(s.drop_last()).insert(s.last().0, s.last().1)
    }
}

/// The names of `s` grow strictly from each entry to the next.
pub open spec fn strictly_increasing<V>(s: Seq<(Seq<char>, V)>) -> bool {
    forall|i: int, j: int| 0 <= i < j < s.len() ==> key_lt(#[trigger] s[i].0, #[trigger] s[j].0)
}

/// `s` lists the entries of `m`, each once, in the order of names.
pub open spec fn is_sorted_listing<V>(s: Seq<(Seq<char>, V)>, m: Map<Seq<char>, V>) -> bool {
    &&& strictly_increasing(s)
    &&& forall|i: int| 0 <= i < s.len() ==> m.contains_pair(#[trigger] s[i].0, s[i].1)
    &&& forall|k: Seq<char>|
        m.contains_key(k) ==> exists|i: int| 0 <= i < s.len() && #[trigger] s[i].0 == k
}

/// The entries of a finite map in the order of names.
pub open spec fn sorted_entries<V>(m: Map<Seq<char>, V>) -> Seq<(Seq<char>, V)> {
    choose|s: Seq<(Seq<char>, V)>| is_sorted_listing(s, m)
}

/// A name is in the collected map exactly if some entry carries it.
pub proof fn lemma_collect_entries_dom<V>(s: Seq<(Seq<char>, V)>)
    ensures
        collect_entries(s).dom().finite(),
        forall|k: Seq<char>| #[trigger]
            collect_entries(s).contains_key(k) <==> exists|i: int|
                0 <= i < s.len() && #[trigger] s[i].0 == k,
    decreases s.len(),
{
    if s.len() > 0 {
        let front = s.drop_last();
        lemma_collect_entries_dom(front);
        assert forall|k: Seq<char>|
            (exists|i: int|
                0 <= i < s.len() && #[trigger] s[i].0 == k) implies #[trigger] collect_entries(
            s,
        ).contains_key(k) by {
            let i = choose|i: int| 0 <= i < s.len() && #[trigger] s[i].0 == k;
            if i < s.len() - 1 {
                assert(front[i].0 == k);
            }
        }
    }
}

/// Where no name occurs twice, every entry is found again in the collected
/// map.
pub proof fn lemma_collect_entries_sorted<V>(s: Seq<(Seq<char>, V)>)
    requires
        strictly_increasing(s),
    ensures
        is_sorted_listing(s, collect_entries(s)),
    decreases s.len(),
{
    if s.len() > 0 {
        let front = s.drop_last();
        assert(strictly_increasing(front));
        lemma_collect_entries_sorted(front);
        assert forall|i: int| 0 <= i < s.len() implies collect_entries(s).contains_pair(
            #[trigger] s[i].0,
            s[i].1,
        ) by {
            if i < s.len() - 1 {
                lemma_key_lt_asymmetric(s[i].0, s.last().0);
                assert(collect_entries(front).contains_pair(front[i].0, front[i].1));
            }
        }
    }
}

/// A finite map has one listing in the order of names, no more.
pub proof fn lemma_sorted_listing_unique<V>(
    s: Seq<(Seq<char>, V)>,
    t: Seq<(Seq<char>, V)>,
    m: Map<Seq<char>, V>,
)
    requires
        is_sorted_listing(s, m),
        is_sorted_listing(t, m),
    ensures
        s == t,
    decreases s.len(),
{
    if s.len() == 0 {
        // `m` is empty, so `t` has no entry either
        if t.len() > 0 {
            assert(m.contains_key(t[0].0));
        }
    } else {
        // the last entry of each is the one with the last name of `m`
        let a = s.last();
        let b = t.last();
        let j = choose|j: int| 0 <= j < t.len() && #[trigger] t[j].0 == a.0;
        if j < t.len() - 1 {
            // then a < b, while b is one of s, none of which is after a
            lemma_key_lt_asymmetric(a.0, b.0);
        }
        lemma_drop_last_lists_rest(s, m);
        lemma_drop_last_lists_rest(t, m);
        lemma_sorted_listing_unique(s.drop_last(), t.drop_last(), m.remove(a.0));
        assert(s =~= s.drop_last().push(a));
    }
}

/// Without its last entry, a listing lists the map without its last name.
pub proof fn lemma_drop_last_lists_rest<V>(s: Seq<(Seq<char>, V)>, m: Map<Seq<char>, V>)
    requires
        s.len() > 0,
        is_sorted_listing(s, m),
    ensures
        is_sorted_listing(s.drop_last(), m.remove(s.last().0)),
{
    let front = s.drop_last();
    let rest = m.remove(s.last().0);
    assert forall|i: int| 0 <= i < front.len() implies rest.contains_pair(
        #[trigger] front[i].0,
        front[i].1,
    ) by {
        lemma_key_lt_asymmetric(s[i].0, s.last().0);
    }
    assert forall|k: Seq<char>| rest.contains_key(k) implies exists|i: int|
        0 <= i < front.len() && #[trigger] front[i].0 == k by {
        let i = choose|i: int| 0 <= i < s.len() && #[trigger] s[i].0 == k;
        assert(front[i].0 == k);
    }
}

/// Putting a new name at its place in a listing adds it to the map listed.
pub proof fn lemma_listing_insert<V>(s: Seq<(Seq<char>, V)>, at: int, name: Seq<char>, value: V)
    requires
        strictly_increasing(s),
        0 <= at <= s.len(),
        forall|i: int| 0 <= i < at ==> key_lt(#[trigger] s[i].0, name),
        forall|i: int| at <= i < s.len() ==> key_lt(name, #[trigger] s[i].0),
    ensures
        strictly_increasing(s.insert(at, (name, value))),
        collect_entries(s.insert(at, (name, value))) == collect_entries(s).insert(name, value),
{
    let t = s.insert(at, (name, value));
    lemma_collect_entries_sorted(s);
    lemma_collect_entries_sorted(t);
    let m = collect_entries(s);
    let n = collect_entries(t);
    assert forall|k: Seq<char>| n.contains_key(k) implies m.insert(name, value).contains_pair(
        k,
        n[k],
    ) by {
        let i = choose|i: int| 0 <= i < t.len() && #[trigger] t[i].0 == k;
        if i < at {
            lemma_key_lt_asymmetric(s[i].0, name);
        } else if i > at {
            lemma_key_lt_asymmetric(name, s[i - 1].0);
        }
    }
    assert forall|k: Seq<char>| m.insert(name, value).contains_key(k) implies n.contains_key(
        k,
    ) by {
        if k == name {
            assert(n.contains_pair(t[at].0, t[at].1));
        } else {
            let i = choose|i: int| 0 <= i < s.len() && #[trigger] s[i].0 == k;
            if i < at {
                assert(n.contains_pair(t[i].0, t[i].1));
            } else {
                assert(n.contains_pair(t[i + 1].0, t[i + 1].1));
            }
        }
    }
}

/// Giving an entry of a listing a new value gives its name that value in the
/// map listed.
pub proof fn lemma_listing_update<V>(s: Seq<(Seq<char>, V)>, at: int, value: V)
    requires
        strictly_increasing(s),
        0 <= at < s.len(),
    ensures
        strictly_increasing(s.update(at, (s[at].0, value))),
        collect_entries(s.update(at, (s[at].0, value))) == collect_entries(s).insert(
            s[at].0,
            value,
        ),
{
    let name = s[at].0;
    let t = s.update(at, (name, value));
    lemma_collect_entries_sorted(s);
    lemma_collect_entries_sorted(t);
    let m = collect_entries(s);
    let n = collect_entries(t);
    assert forall|k: Seq<char>| m.insert(name, value).contains_key(k) implies n.contains_key(
        k,
    ) by {
        if k == name {
            assert(n.contains_pair(t[at].0, t[at].1));
        } else {
            let i = choose|i: int| 0 <= i < s.len() && #[trigger] s[i].0 == k;
            assert(n.contains_pair(t[i].0, t[i].1));
        }
    }
}

/// A listing is as long as the map it lists has names.
pub proof fn lemma_listing_len<V>(s: Seq<(Seq<char>, V)>, m: Map<Seq<char>, V>)
    requires
        is_sorted_listing(s, m),
    ensures
        m.dom().finite(),
        m.len() == s.len(),
    decreases s.len(),
{
    if s.len() == 0 {
        assert(m.dom() =~= Set::empty());
    } else {
        let last = s.last();
        lemma_drop_last_lists_rest(s, m);
        lemma_listing_len(s.drop_last(), m.remove(last.0));
    }
}

/// The map that a listing lists is the one its entries collect to.
pub proof fn lemma_sorted_listing_collects<V>(s: Seq<(Seq<char>, V)>, m: Map<Seq<char>, V>)
    requires
        is_sorted_listing(s, m),
    ensures
        collect_entries(s) == m,
{
    lemma_collect_entries_sorted(s);
}

/// The place in a listing at which a name that it lacks would stand.
pub proof fn lemma_insertion_point<V>(s: Seq<(Seq<char>, V)>, name: Seq<char>) -> (at: int)
    requires
        strictly_increasing(s),
        forall|i: int| 0 <= i < s.len() ==> #[trigger] s[i].0 != name,
    ensures
        0 <= at <= s.len(),
        forall|i: int| 0 <= i < at ==> key_lt(#[trigger] s[i].0, name),
        forall|i: int| at <= i < s.len() ==> key_lt(name, #[trigger] s[i].0),
    decreases s.len(),
{
    if s.len() == 0 {
        0
    } else {
        let last = s[s.len() - 1];
        lemma_key_lt_total(last.0, name);
        if key_lt(last.0, name) {
            assert forall|i: int| 0 <= i < s.len() implies key_lt(#[trigger] s[i].0, name) by {
                if i < s.len() - 1 {
                    lemma_key_lt_transitive(s[i].0, last.0, name);
                }
            }
            s.len() as int
        } else {
            let front = s.drop_last();
            let at = lemma_insertion_point(front, name);
            assert forall|i: int| 0 <= i < at implies key_lt(#[trigger] s[i].0, name) by {
                assert(key_lt(front[i].0, name));
            }
            assert forall|i: int| at <= i < s.len() implies key_lt(name, #[trigger] s[i].0) by {
                if i < s.len() - 1 {
                    assert(key_lt(name, front[i].0));
                }
            }
            at
        }
    }
}

/// Every finite map has a listing in the order of names.
pub proof fn lemma_sorted_entries_list<V>(m: Map<Seq<char>, V>)
    requires
        m.dom().finite(),
    ensures
        is_sorted_listing(sorted_entries(m), m),
    decreases m.dom().len(),
{
    if m.dom().len() == 0 {
        let s = Seq::<(Seq<char>, V)>::empty();
        assert(is_sorted_listing(s, m));
    } else {
        let name = m.dom().choose();
        let rest = m.remove(name);
        lemma_sorted_entries_list(rest);
        let t = sorted_entries(rest);
        let at = lemma_insertion_point(t, name);
        let s = t.insert(at, (name, m[name]));
        lemma_listing_insert(t, at, name, m[name]);
        lemma_sorted_listing_collects(t, rest);
        assert(rest.insert(name, m[name]) =~= m);
        lemma_collect_entries_sorted(s);
    }
}

/// A sequence that lists a map in the order of names is the listing of it.
pub proof fn lemma_sorted_entries_is<V>(s: Seq<(Seq<char>, V)>, m: Map<Seq<char>, V>)
    requires
        is_sorted_listing(s, m),
    ensures
        sorted_entries(m) == s,
{
    lemma_sorted_listing_unique(sorted_entries(m), s, m);
}

} // verus!
