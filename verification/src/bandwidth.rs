//! Bandwidth by table: what was written to and read from each table that saw
//! any traffic.

use crate::counters::{count_of, CounterMap};
use crate::key_order::{
    key_lt, key_order, lemma_key_lt_asymmetric, lemma_key_lt_irreflexive,
    lemma_key_lt_transitive, KeyOrder,
};
use crate::listing::{
    is_sorted_listing, lemma_sorted_entries_is, lemma_sorted_entries_list, sorted_entries,
    strictly_increasing,
};
use vstd::prelude::*;

verus! {

/// For each table with bytes written or read, the bytes written and the bytes
/// read. A table whose counters are both zero is left out.
pub open spec fn bandwidth_by_table(
    ingress: Map<Seq<char>, nat>,
    egress: Map<Seq<char>, nat>,
) -> Map<Seq<char>, (nat, nat)> {
    Map::new(
        |table: Seq<char>| count_of(ingress, table) > 0 || count_of(egress, table) > 0,
        |table: Seq<char>| (count_of(ingress, table), count_of(egress, table)),
    )
}

/// The bandwidth of one table.
#[derive(Debug, PartialEq, Eq)]
pub struct TableBandwidth {
    pub table_name: String,
    pub ingress: u64,
    pub egress: u64,
}

impl DeepView for TableBandwidth {
    type V = (Seq<char>, (nat, nat));

    open spec fn deep_view(&self) -> (Seq<char>, (nat, nat)) {
        (self.table_name@, (self.ingress as nat, self.egress as nat))
    }
}

/// What holds while two listings are walked together: `listed` holds the
/// bandwidth of the tables that lie before place `i` of `a` and before place
/// `j` of `e`.
spec fn joined(
    a: Seq<(Seq<char>, nat)>,
    e: Seq<(Seq<char>, nat)>,
    ingress: Map<Seq<char>, nat>,
    egress: Map<Seq<char>, nat>,
    listed: Seq<(Seq<char>, (nat, nat))>,
    i: int,
    j: int,
) -> bool {
    let both = bandwidth_by_table(ingress, egress);
    &&& 0 <= i <= a.len()
    &&& 0 <= j <= e.len()
    &&& is_sorted_listing(a, ingress)
    &&& is_sorted_listing(e, egress)
    &&& strictly_increasing(listed)
    &&& forall|r: int|
        0 <= r < listed.len() ==> both.contains_pair(#[trigger] listed[r].0, listed[r].1)
    &&& forall|r: int, x: int|
        0 <= r < listed.len() && i <= x < a.len() ==> key_lt(
            #[trigger] listed[r].0,
            #[trigger] a[x].0,
        )
    &&& forall|r: int, y: int|
        0 <= r < listed.len() && j <= y < e.len() ==> key_lt(
            #[trigger] listed[r].0,
            #[trigger] e[y].0,
        )
    &&& forall|x: int, y: int|
        0 <= x < i && j <= y < e.len() ==> key_lt(#[trigger] a[x].0, #[trigger] e[y].0)
    &&& forall|x: int, y: int|
        i <= x < a.len() && 0 <= y < j ==> key_lt(#[trigger] e[y].0, #[trigger] a[x].0)
    &&& forall|x: int|
        0 <= x < i && both.contains_key(#[trigger] a[x].0) ==> exists|r: int|
            0 <= r < listed.len() && #[trigger] listed[r].0 == a[x].0
    &&& forall|y: int|
        0 <= y < j && both.contains_key(#[trigger] e[y].0) ==> exists|r: int|
            0 <= r < listed.len() && #[trigger] listed[r].0 == e[y].0
}

/// A name that stands before every entry left of a listing, and is none of
/// those passed, is not in the map listed.
proof fn lemma_not_listed(
    s: Seq<(Seq<char>, nat)>,
    m: Map<Seq<char>, nat>,
    name: Seq<char>,
    from: int,
)
    requires
        is_sorted_listing(s, m),
        0 <= from <= s.len(),
        forall|y: int| 0 <= y < from ==> key_lt(#[trigger] s[y].0, name),
        from < s.len() ==> key_lt(name, s[from].0),
    ensures
        !m.contains_key(name),
{
    if m.contains_key(name) {
        let y = choose|y: int| 0 <= y < s.len() && #[trigger] s[y].0 == name;
        lemma_key_lt_irreflexive(name);
        if y > from {
            lemma_key_lt_asymmetric(name, s[from].0);
        }
    }
}

/// One step of the walk: the next table is taken from `a`, from `e`, or from
/// both where they name the same one, and is listed if it has any bandwidth.
proof fn lemma_joined_step(
    a: Seq<(Seq<char>, nat)>,
    e: Seq<(Seq<char>, nat)>,
    ingress: Map<Seq<char>, nat>,
    egress: Map<Seq<char>, nat>,
    listed: Seq<(Seq<char>, (nat, nat))>,
    i: int,
    j: int,
    from_a: bool,
    from_e: bool,
)
    requires
        joined(a, e, ingress, egress, listed, i, j),
        from_a || from_e,
        from_a ==> i < a.len(),
        from_e ==> j < e.len(),
        from_a && from_e ==> a[i].0 == e[j].0,
        from_a && !from_e ==> j == e.len() || key_lt(a[i].0, e[j].0),
        !from_a && from_e ==> i == a.len() || key_lt(e[j].0, a[i].0),
    ensures
        ({
            let table = if from_a {
                a[i].0
            } else {
                e[j].0
            };
            let written = if from_a {
                a[i].1
            } else {
                0
            };
            let read = if from_e {
                e[j].1
            } else {
                0
            };
            let next = if written > 0 || read > 0 {
                listed.push((table, (written, read)))
            } else {
                listed
            };
            joined(
                a,
                e,
                ingress,
                egress,
                next,
                if from_a {
                    i + 1
                } else {
                    i
                },
                if from_e {
                    j + 1
                } else {
                    j
                },
            )
        }),
{
    let both = bandwidth_by_table(ingress, egress);
    let table = if from_a {
        a[i].0
    } else {
        e[j].0
    };
    let written: nat = if from_a {
        a[i].1
    } else {
        0
    };
    let read: nat = if from_e {
        e[j].1
    } else {
        0
    };
    let next = if written > 0 || read > 0 {
        listed.push((table, (written, read)))
    } else {
        listed
    };
    let i1 = if from_a {
        i + 1
    } else {
        i
    };
    let j1 = if from_e {
        j + 1
    } else {
        j
    };
    // A table that one listing does not bring is not in its map.
    if !from_a {
        lemma_not_listed(a, ingress, table, i);
    }
    if !from_e {
        lemma_not_listed(e, egress, table, j);
    }
    // The table stands before all that is left of both listings.
    assert forall|x: int| i1 <= x < a.len() implies key_lt(table, #[trigger] a[x].0) by {
        if !from_a && x > i {
            lemma_key_lt_transitive(table, a[i].0, a[x].0);
        }
    }
    assert forall|y: int| j1 <= y < e.len() implies key_lt(table, #[trigger] e[y].0) by {
        if !from_e && y > j {
            lemma_key_lt_transitive(table, e[j].0, e[y].0);
        }
    }
    // Every table with bandwidth that was passed is listed.
    assert forall|x: int| 0 <= x < i1 && both.contains_key(#[trigger] a[x].0) implies exists|
        r: int,
    |
        0 <= r < next.len() && #[trigger] next[r].0 == a[x].0 by {
        if x < i {
            let r = choose|r: int| 0 <= r < listed.len() && #[trigger] listed[r].0 == a[x].0;
            assert(next[r].0 == a[x].0);
        } else {
            assert(next[next.len() - 1].0 == a[x].0);
        }
    }
    assert forall|y: int| 0 <= y < j1 && both.contains_key(#[trigger] e[y].0) implies exists|
        r: int,
    |
        0 <= r < next.len() && #[trigger] next[r].0 == e[y].0 by {
        if y < j {
            let r = choose|r: int| 0 <= r < listed.len() && #[trigger] listed[r].0 == e[y].0;
            assert(next[r].0 == e[y].0);
        } else {
            assert(next[next.len() - 1].0 == e[y].0);
        }
    }
}

/// At the end of the walk all tables with bandwidth are listed.
proof fn lemma_joined_done(
    a: Seq<(Seq<char>, nat)>,
    e: Seq<(Seq<char>, nat)>,
    ingress: Map<Seq<char>, nat>,
    egress: Map<Seq<char>, nat>,
    listed: Seq<(Seq<char>, (nat, nat))>,
)
    requires
        joined(a, e, ingress, egress, listed, a.len() as int, e.len() as int),
    ensures
        listed == sorted_entries(bandwidth_by_table(ingress, egress)),
{
    lemma_sorted_entries_is(listed, bandwidth_by_table(ingress, egress));
}

/// The bandwidth of each table that has any, in the order of table names.
pub fn table_bandwidth(ingress: &CounterMap, egress: &CounterMap) -> (rows: Vec<TableBandwidth>)
    ensures
        rows.deep_view() == sorted_entries(bandwidth_by_table(ingress@, egress@)),
{
    let ghost a = sorted_entries(ingress@);
    let ghost e = sorted_entries(egress@);
    proof {
        ingress.lemma_view_valid();
        egress.lemma_view_valid();
        lemma_sorted_entries_list(ingress@);
        lemma_sorted_entries_list(egress@);
    }
    let n = ingress.len();
    let m = egress.len();
    let mut rows: Vec<TableBandwidth> = Vec::new();
    let mut i: usize = 0;
    let mut j: usize = 0;
    while i < n || j < m
        invariant
            n == a.len(),
            m == e.len(),
            n == ingress@.len(),
            m == egress@.len(),
            a == sorted_entries(ingress@),
            e == sorted_entries(egress@),
            joined(a, e, ingress@, egress@, rows.deep_view(), i as int, j as int),
        decreases (n - i) + (m - j),
    {
        let ghost listed = rows.deep_view();
        let order = if i == n {
            KeyOrder::After
        } else if j == m {
            KeyOrder::Before
        } else {
            key_order(ingress.name_at(i).as_str(), egress.name_at(j).as_str())
        };
        let from_a = !matches!(order, KeyOrder::After);
        let from_e = !matches!(order, KeyOrder::Before);
        proof {
            lemma_joined_step(a, e, ingress@, egress@, listed, i as int, j as int, from_a, from_e);
        }
        let table_name = if from_a {
            ingress.name_at(i).clone()
        } else {
            egress.name_at(j).clone()
        };
        let written = if from_a {
            ingress.count_at(i)
        } else {
            0
        };
        let read = if from_e {
            egress.count_at(j)
        } else {
            0
        };
        if written > 0 || read > 0 {
            rows.push(TableBandwidth { table_name, ingress: written, egress: read });
            assert(rows.deep_view() =~= listed.push((table_name@, (written as nat, read as nat))));
        }
        if from_a {
            i += 1;
        }
        if from_e {
            j += 1;
        }
    }
    proof {
        lemma_joined_done(a, e, ingress@, egress@, rows.deep_view());
    }
    rows
}

} // verus!
