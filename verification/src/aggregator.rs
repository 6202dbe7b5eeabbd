//! The order of the charts on a page: ascending by the name of the file each
//! came from.

use vstd::prelude::*;
use vstd::set_lib::{lemma_int_range, lemma_subset_equality, set_int_range};
use crate::chart::{charts_view, Chart, ChartView};
use crate::ordering::{
    lemma_name_before_irreflexive, lemma_name_before_total, lemma_name_before_transitive,
    name_before, name_precedes,
};

verus! {

/// The file names and chart values of a list of entries, position by position.
pub open spec fn named_charts(entries: Seq<(String, Chart)>) -> Seq<(Seq<char>, ChartView)> {
    Seq::new(entries.len(), |i: int| (entries[i].0@, entries[i].1@))
}

/// Whether entry `p` is listed before entry `q`: its name comes first, or the
/// names are the same and `p` was given first.
pub open spec fn listed_before(entries: Seq<(Seq<char>, ChartView)>, p: int, q: int) -> bool {
    name_before(entries[p].0, entries[q].0) || (entries[p].0 == entries[q].0 && p < q)
}

/// Whether `order` lists each position of `entries` once, every entry before
/// those that come after it by [`listed_before`].
pub open spec fn is_listing_order(entries: Seq<(Seq<char>, ChartView)>, order: Seq<int>) -> bool {
    &&& order.len() == entries.len()
    &&& forall|i: int| 0 <= i < order.len() ==> 0 <= #[trigger] order[i] < entries.len()
    &&& forall|i: int, j: int|
        0 <= i < j < order.len() ==> listed_before(entries, #[trigger] order[i], #[trigger] order[j])
}

/// The charts of `entries` taken in the given order.
pub open spec fn charts_in_order(entries: Seq<(Seq<char>, ChartView)>, order: Seq<int>) -> Seq<
    ChartView,
> {
    Seq::new(order.len(), |i: int| entries[order[i]].1)
}

/// Whether `charts` are the charts of `entries` in ascending order of file
/// name, those of one name in the order in which they were given.
pub open spec fn aggregated(entries: Seq<(Seq<char>, ChartView)>, charts: Seq<ChartView>) -> bool {
    exists|order: Seq<int>| #[trigger]
        is_listing_order(entries, order) && charts == charts_in_order(entries, order)
}

/// Whether no two entries have the same file name.
pub open spec fn distinct_names(entries: Seq<(Seq<char>, ChartView)>) -> bool {
    forall|i: int, j: int|
        0 <= i < entries.len() && 0 <= j < entries.len() && i != j ==> (#[trigger] entries[i]).0
            != (#[trigger] entries[j]).0
}

/// Whether `shuffle` lists each of the positions `0..len` once.
pub open spec fn is_shuffle(shuffle: Seq<int>, len: nat) -> bool {
    &&& shuffle.len() == len
    &&& shuffle.no_duplicates()
    &&& forall|i: int| 0 <= i < len ==> 0 <= #[trigger] shuffle[i] < len
}

/// The entries taken in the order that `shuffle` gives.
pub open spec fn shuffled(entries: Seq<(Seq<char>, ChartView)>, shuffle: Seq<int>) -> Seq<
    (Seq<char>, ChartView),
> {
    Seq::new(shuffle.len(), |i: int| entries[shuffle[i]])
}

/// The position at which an entry named `name` joins `names`: behind the
/// names that come before it, ahead of the others.
fn insertion_point(names: &Vec<String>, name: &str) -> (at: usize)
    requires
        forall|i: int, j: int|
            0 <= i < j < names.len() ==> !name_before(#[trigger] names[j]@, #[trigger] names[i]@),
    ensures
        at <= names.len(),
        forall|i: int| 0 <= i < at ==> name_before(#[trigger] names[i]@, name@),
        forall|i: int| at <= i < names.len() ==> !name_before(#[trigger] names[i]@, name@),
{
    let mut at: usize = 0;
    while at < names.len() && name_precedes(names[at].as_str(), name)
        invariant
            at <= names.len(),
            forall|i: int| 0 <= i < at ==> name_before(#[trigger] names[i]@, name@),
        decreases names.len() - at,
    {
        at += 1;
    }
    assert forall|i: int| at <= i < names.len() implies !name_before(
        #[trigger] names[i]@,
        name@,
    ) by {
        if at < i && name_before(names[i]@, name@) {
            lemma_name_before_total(names[at as int]@, name@);
            lemma_name_before_irreflexive(name@);
            if name_before(name@, names[at as int]@) {
                lemma_name_before_transitive(names[i]@, name@, names[at as int]@);
            }
        }
    }
    at
}

/// Orders the charts by the name of the file each came from and drops the
/// names. Names are compared byte by byte; charts of one name keep the order
/// in which they were given.
pub fn aggregate(entries: Vec<(String, Chart)>) -> (charts: Vec<Chart>)
    ensures
        aggregated(named_charts(entries@), charts_view(charts@)),
{
    let ghost all = named_charts(entries@);
    let ghost mut order: Seq<int> = Seq::empty();
    let mut rest = entries;
    let mut names: Vec<String> = Vec::new();
    let mut charts: Vec<Chart> = Vec::new();
    while rest.len() > 0
        invariant
            rest.len() <= all.len(),
            named_charts(rest@) == all.take(rest.len() as int),
            names.len() == order.len(),
            charts.len() == order.len(),
            order.len() == all.len() - rest.len(),
            forall|i: int| 0 <= i < order.len() ==> rest.len() <= #[trigger] order[i] < all.len(),
            forall|i: int, j: int|
                0 <= i < j < order.len() ==> listed_before(
                    all,
                    #[trigger] order[i],
                    #[trigger] order[j],
                ),
            forall|i: int|
                0 <= i < order.len() ==> (#[trigger] names[i])@ == all[order[i]].0,
            forall|i: int|
                0 <= i < order.len() ==> (#[trigger] charts[i])@ == all[order[i]].1,
        decreases rest.len(),
    {
        let ghost given = rest.len() - 1;
        let ghost before = named_charts(rest@);
        let (name, chart) = rest.pop().unwrap();
        proof {
            assert(before[given] == all[given]);
            assert(named_charts(rest@) =~= all.take(rest.len() as int));
            assert forall|i: int, j: int| 0 <= i < j < names.len() implies !name_before(
                #[trigger] names[j]@,
                #[trigger] names[i]@,
            ) by {
                lemma_listed_before_asymmetric(all, order[i], order[j]);
                lemma_name_before_irreflexive(names[i]@);
            }
        }
        let at = insertion_point(&names, name.as_str());
        let ghost old_order = order;
        let ghost old_names = names@;
        let ghost old_charts = charts@;
        names.insert(at, name);
        charts.insert(at, chart);
        proof {
            order = old_order.insert(at as int, given);
            assert forall|i: int, j: int| 0 <= i < j < order.len() implies listed_before(
                all,
                #[trigger] order[i],
                #[trigger] order[j],
            ) by {
                if i == at {
                    assert(order[j] == old_order[j - 1]);
                    assert(names@[j] == old_names[j - 1]);
                    lemma_name_before_total(all[given].0, all[order[j]].0);
                } else if j == at {
                    assert(order[i] == old_order[i]);
                    assert(names@[i] == old_names[i]);
                } else {
                    let a = if i < at { i } else { i - 1 };
                    let b = if j < at { j } else { j - 1 };
                    assert(order[i] == old_order[a] && order[j] == old_order[b]);
                }
            }
            assert forall|i: int| 0 <= i < order.len() implies (#[trigger] names[i])@
                == all[order[i]].0 by {
                if i != at {
                    let a = if i < at { i } else { i - 1 };
                    assert(names@[i] == old_names[a] && order[i] == old_order[a]);
                }
            }
            assert forall|i: int| 0 <= i < order.len() implies (#[trigger] charts[i])@
                == all[order[i]].1 by {
                if i != at {
                    let a = if i < at { i } else { i - 1 };
                    assert(charts@[i] == old_charts[a] && order[i] == old_order[a]);
                }
            }
        }
    }
    proof {
        assert(is_listing_order(all, order));
        assert(charts_view(charts@) =~= charts_in_order(all, order));
    }
    charts
}

/// `listed_before` never holds both ways, and so never of a position and
/// itself.
proof fn lemma_listed_before_asymmetric(entries: Seq<(Seq<char>, ChartView)>, p: int, q: int)
    requires
        listed_before(entries, p, q),
    ensures
        !listed_before(entries, q, p),
        p != q,
{
    lemma_name_before_irreflexive(entries[p].0);
    if name_before(entries[p].0, entries[q].0) && name_before(entries[q].0, entries[p].0) {
        lemma_name_before_transitive(entries[p].0, entries[q].0, entries[p].0);
    }
}

/// A listing order reaches every position of the entries.
proof fn lemma_listing_order_reaches(entries: Seq<(Seq<char>, ChartView)>, order: Seq<int>, p: int)
    requires
        is_listing_order(entries, order),
        0 <= p < entries.len(),
    ensures
        exists|k: int| 0 <= k < order.len() && order[k] == p,
{
    assert forall|i: int, j: int|
        0 <= i < order.len() && 0 <= j < order.len() && i != j implies order[i] != order[j] by {
        if i < j {
            lemma_listed_before_asymmetric(entries, order[i], order[j]);
        } else {
            lemma_listed_before_asymmetric(entries, order[j], order[i]);
        }
    }
    order.unique_seq_to_set();
    lemma_int_range(0, entries.len() as int);
    let positions = set_int_range(0, entries.len() as int);
    assert forall|x: int| order.to_set().contains(x) implies positions.contains(x) by {
        let k = choose|k: int| 0 <= k < order.len() && order[k] == x;
        assert(0 <= order[k] < entries.len());
    }
    vstd::seq_lib::seq_to_set_is_finite(order);
    lemma_subset_equality(order.to_set(), positions);
    assert(positions.contains(p));
    assert(order.to_set().contains(p));
}

/// Two listing orders of the same entries agree at every position up to `i`.
proof fn lemma_listing_orders_agree(
    entries: Seq<(Seq<char>, ChartView)>,
    first: Seq<int>,
    second: Seq<int>,
    i: int,
)
    requires
        is_listing_order(entries, first),
        is_listing_order(entries, second),
        0 <= i < entries.len(),
    ensures
        forall|k: int| 0 <= k <= i ==> first[k] == second[k],
    decreases i,
{
    if i > 0 {
        lemma_listing_orders_agree(entries, first, second, i - 1);
    }
    if first[i] != second[i] {
        lemma_listing_order_reaches(entries, second, first[i]);
        let k = choose|k: int| 0 <= k < second.len() && second[k] == first[i];
        if k < i {
            lemma_listed_before_asymmetric(entries, first[k], first[i]);
        }
        lemma_listing_order_reaches(entries, first, second[i]);
        let m = choose|m: int| 0 <= m < first.len() && first[m] == second[i];
        if m < i {
            lemma_listed_before_asymmetric(entries, second[m], second[i]);
        }
        assert(listed_before(entries, second[i], second[k]));
        assert(listed_before(entries, first[i], first[m]));
        lemma_listed_before_asymmetric(entries, first[i], second[i]);
    }
}

/// The entries have one listing order only.
pub proof fn lemma_listing_order_unique(
    entries: Seq<(Seq<char>, ChartView)>,
    first: Seq<int>,
    second: Seq<int>,
)
    requires
        is_listing_order(entries, first),
        is_listing_order(entries, second),
    ensures
        first == second,
{
    if entries.len() > 0 {
        lemma_listing_orders_agree(entries, first, second, entries.len() - 1);
    }
    assert(first =~= second);
}

/// Aggregation is deterministic: the entries decide the charts and their
/// order.
pub proof fn lemma_aggregated_unique(
    entries: Seq<(Seq<char>, ChartView)>,
    first: Seq<ChartView>,
    second: Seq<ChartView>,
)
    requires
        aggregated(entries, first),
        aggregated(entries, second),
    ensures
        first == second,
{
    let a = choose|order: Seq<int>| #[trigger]
        is_listing_order(entries, order) && first == charts_in_order(entries, order);
    let b = choose|order: Seq<int>| #[trigger]
        is_listing_order(entries, order) && second == charts_in_order(entries, order);
    lemma_listing_order_unique(entries, a, b);
}

/// Where no two files have the same name, the listing order is strictly
/// ascending by file name.
pub proof fn lemma_distinct_names_strictly_ascend(
    entries: Seq<(Seq<char>, ChartView)>,
    order: Seq<int>,
)
    requires
        is_listing_order(entries, order),
        distinct_names(entries),
    ensures
        forall|i: int, j: int|
            0 <= i < j < order.len() ==> name_before(
                entries[#[trigger] order[i]].0,
                entries[#[trigger] order[j]].0,
            ),
{
    assert forall|i: int, j: int| 0 <= i < j < order.len() implies name_before(
        entries[#[trigger] order[i]].0,
        entries[#[trigger] order[j]].0,
    ) by {
        lemma_listed_before_asymmetric(entries, order[i], order[j]);
    }
}

/// Where no two files have the same name, the order in which the files are
/// given does not matter: given in any other order, they aggregate to the same
/// charts in the same order.
pub proof fn lemma_enumeration_order_is_irrelevant(
    entries: Seq<(Seq<char>, ChartView)>,
    shuffle: Seq<int>,
    charts: Seq<ChartView>,
    shuffled_charts: Seq<ChartView>,
)
    requires
        distinct_names(entries),
        is_shuffle(shuffle, entries.len()),
        aggregated(entries, charts),
        aggregated(shuffled(entries, shuffle), shuffled_charts),
    ensures
        charts == shuffled_charts,
{
    let other = shuffled(entries, shuffle);
    let a = choose|order: Seq<int>| #[trigger]
        is_listing_order(entries, order) && charts == charts_in_order(entries, order);
    let b = choose|order: Seq<int>| #[trigger]
        is_listing_order(other, order) && shuffled_charts == charts_in_order(other, order);
    let back = Seq::new(b.len(), |i: int| shuffle[b[i]]);
    assert forall|i: int, j: int| 0 <= i < j < back.len() implies listed_before(
        entries,
        #[trigger] back[i],
        #[trigger] back[j],
    ) by {
        assert(listed_before(other, b[i], b[j]));
        lemma_listed_before_asymmetric(other, b[i], b[j]);
        assert(other[b[i]] == entries[shuffle[b[i]]]);
        assert(other[b[j]] == entries[shuffle[b[j]]]);
    }
    assert(is_listing_order(entries, back));
    lemma_listing_order_unique(entries, a, back);
    assert(charts =~= shuffled_charts);
}

} // verus!
