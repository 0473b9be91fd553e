//! The order of the collection list: collections of the user first, system
//! collections after them, each group by name.

use crate::data::{CollectionWithCount, CollectionWithCountModel};
use crate::text::{
    lemma_name_le_antisymmetric, lemma_name_le_total, lemma_name_le_transitive, name_le,
    name_precedes,
};
use vstd::prelude::*;
use vstd::seq_lib::{to_multiset_build, to_multiset_contains, to_multiset_len};

verus! {

/// `x` may stand above `y` in the collection list: a collection of the
/// user above a system collection, and within a group the name that comes
/// no later in alphabetical order.
pub open spec fn listed_before(x: CollectionWithCountModel, y: CollectionWithCountModel) -> bool {
    if x.info.is_system != y.info.is_system {
        !x.info.is_system
    } else {
        name_le(x.info.name, y.info.name)
    }
}

/// Every row of `rows` may stand above every row after it.
pub open spec fn in_listed_order(rows: Seq<CollectionWithCountModel>) -> bool {
    forall|i: int, j: int|
        0 <= i <= j < rows.len() ==> listed_before(#[trigger] rows[i], #[trigger] rows[j])
}

/// `sorted` with `x` put in after the last row that may stand above it.
pub open spec fn insert_listed(
    sorted: Seq<CollectionWithCountModel>,
    x: CollectionWithCountModel,
) -> Seq<CollectionWithCountModel>
    decreases sorted.len(),
{
    if sorted.len() == 0 {
        seq![x]
    } else if listed_before(sorted.last(), x) {
        sorted.push(x)
    } else {
        insert_listed(sorted.drop_last(), x).push(sorted.last())
    }
}

/// The rows of `rows` in the order of the collection list. Rows that may
/// stand either way round keep the order in which they came.
pub open spec fn listed(rows: Seq<CollectionWithCountModel>) -> Seq<CollectionWithCountModel>
    decreases rows.len(),
{
    if rows.len() == 0 {
        rows
    } else {
        insert_listed(listed(rows.drop_last()), rows.last())
    }
}

proof fn lemma_listed_before_total(x: CollectionWithCountModel, y: CollectionWithCountModel)
    ensures
        listed_before(x, y) || listed_before(y, x),
{
    lemma_name_le_total(x.info.name, y.info.name);
}

proof fn lemma_listed_before_transitive(
    x: CollectionWithCountModel,
    y: CollectionWithCountModel,
    z: CollectionWithCountModel,
)
    requires
        listed_before(x, y),
        listed_before(y, z),
    ensures
        listed_before(x, z),
{
    if x.info.is_system == y.info.is_system && y.info.is_system == z.info.is_system {
        lemma_name_le_transitive(x.info.name, y.info.name, z.info.name);
    }
}

proof fn lemma_insert_listed(sorted: Seq<CollectionWithCountModel>, x: CollectionWithCountModel)
    requires
        in_listed_order(sorted),
    ensures
        in_listed_order(insert_listed(sorted, x)),
        insert_listed(sorted, x).len() == sorted.len() + 1,
        insert_listed(sorted, x).to_multiset() == sorted.to_multiset().insert(x),
        forall|k: int|
            0 <= k < sorted.len() + 1 ==> #[trigger] insert_listed(sorted, x)[k] == x || exists|
                m: int,
            |
                0 <= m < sorted.len() && insert_listed(sorted, x)[k] == sorted[m],
    decreases sorted.len(),
{
    let out = insert_listed(sorted, x);
    if sorted.len() == 0 {
        to_multiset_build(sorted, x);
        assert(seq![x] =~= sorted.push(x));
        lemma_listed_before_total(x, x);
    } else if listed_before(sorted.last(), x) {
        to_multiset_build(sorted, x);
        assert forall|i: int, j: int| 0 <= i <= j < out.len() implies listed_before(
            #[trigger] out[i],
            #[trigger] out[j],
        ) by {
            if j == sorted.len() {
                if i < j {
                    assert(listed_before(sorted[i], sorted.last()));
                    lemma_listed_before_transitive(sorted[i], sorted.last(), x);
                } else {
                    lemma_listed_before_total(x, x);
                }
            } else {
                assert(listed_before(sorted[i], sorted[j]));
            }
        }
        assert forall|k: int| 0 <= k < sorted.len() + 1 implies #[trigger] out[k] == x || exists|
            m: int,
        |
            0 <= m < sorted.len() && out[k] == sorted[m] by {
            if k < sorted.len() {
                assert(out[k] == sorted[k]);
            }
        }
    } else {
        let front = sorted.drop_last();
        let last = sorted.last();
        assert(in_listed_order(front)) by {
            assert forall|i: int, j: int| 0 <= i <= j < front.len() implies listed_before(
                #[trigger] front[i],
                #[trigger] front[j],
            ) by {
                assert(listed_before(sorted[i], sorted[j]));
            }
        }
        lemma_insert_listed(front, x);
        let inner = insert_listed(front, x);
        to_multiset_build(inner, last);
        to_multiset_build(front, last);
        assert(front.push(last) =~= sorted);
        assert(out.to_multiset() =~= sorted.to_multiset().insert(x));
        lemma_listed_before_total(last, x);
        assert forall|k: int| 0 <= k < sorted.len() + 1 implies #[trigger] out[k] == x || exists|
            m: int,
        |
            0 <= m < sorted.len() && out[k] == sorted[m] by {
            if k < inner.len() {
                assert(out[k] == inner[k]);
                if inner[k] != x {
                    let m = choose|m: int| 0 <= m < front.len() && inner[k] == front[m];
                    assert(out[k] == sorted[m]);
                }
            } else {
                assert(out[k] == sorted[sorted.len() - 1]);
            }
        }
        assert forall|i: int, j: int| 0 <= i <= j < out.len() implies listed_before(
            #[trigger] out[i],
            #[trigger] out[j],
        ) by {
            if j < inner.len() {
                assert(listed_before(inner[i], inner[j]));
            } else if i < inner.len() {
                if inner[i] == x {
                } else {
                    let m = choose|m: int| 0 <= m < front.len() && inner[i] == front[m];
                    assert(listed_before(sorted[m], sorted[sorted.len() - 1]));
                }
            } else {
                lemma_listed_before_total(last, last);
            }
        }
    }
}

/// The collection list is in order: no system collection stands above a
/// collection of the user, and within each of the two groups no name
/// stands above one that comes earlier in alphabetical order.
pub proof fn lemma_listed_in_order(rows: Seq<CollectionWithCountModel>)
    ensures
        in_listed_order(listed(rows)),
        forall|i: int, j: int|
            0 <= i <= j < listed(rows).len() ==> {
                let above = #[trigger] listed(rows)[i];
                let below = #[trigger] listed(rows)[j];
                &&& above.info.is_system ==> below.info.is_system
                &&& above.info.is_system == below.info.is_system ==> name_le(
                    above.info.name,
                    below.info.name,
                )
            },
    decreases rows.len(),
{
    if rows.len() > 0 {
        lemma_listed_in_order(rows.drop_last());
        lemma_insert_listed(listed(rows.drop_last()), rows.last());
    }
    let out = listed(rows);
    assert forall|i: int, j: int| 0 <= i <= j < out.len() implies {
        let above = #[trigger] out[i];
        let below = #[trigger] out[j];
        &&& above.info.is_system ==> below.info.is_system
        &&& above.info.is_system == below.info.is_system ==> name_le(
            above.info.name,
            below.info.name,
        )
    } by {
        assert(listed_before(out[i], out[j]));
    }
}

/// The collection list holds the rows that came, each as often as it came,
/// whatever their order was.
pub proof fn lemma_listed_same_rows(rows: Seq<CollectionWithCountModel>)
    ensures
        listed(rows).to_multiset() == rows.to_multiset(),
        listed(rows).len() == rows.len(),
    decreases rows.len(),
{
    if rows.len() > 0 {
        lemma_listed_same_rows(rows.drop_last());
        lemma_listed_in_order(rows.drop_last());
        lemma_insert_listed(listed(rows.drop_last()), rows.last());
        to_multiset_build(rows.drop_last(), rows.last());
        assert(rows.drop_last().push(rows.last()) =~= rows);
    }
}

/// Rows that come in the order of the collection list stay as they are.
pub proof fn lemma_listed_keeps_order(rows: Seq<CollectionWithCountModel>)
    requires
        in_listed_order(rows),
    ensures
        listed(rows) == rows,
    decreases rows.len(),
{
    if rows.len() > 0 {
        let front = rows.drop_last();
        assert(in_listed_order(front)) by {
            assert forall|i: int, j: int| 0 <= i <= j < front.len() implies listed_before(
                #[trigger] front[i],
                #[trigger] front[j],
            ) by {
                assert(listed_before(rows[i], rows[j]));
            }
        }
        lemma_listed_keeps_order(front);
        if front.len() > 0 {
            assert(listed_before(rows[front.len() - 1], rows[rows.len() - 1]));
        }
        assert(front.push(rows.last()) =~= rows);
    }
}

/// Two rows that may stand either way round are of the same group and
/// have the same name.
pub proof fn lemma_listed_ties(x: CollectionWithCountModel, y: CollectionWithCountModel)
    requires
        listed_before(x, y),
        listed_before(y, x),
    ensures
        x.info.is_system == y.info.is_system,
        x.info.name == y.info.name,
{
    lemma_name_le_antisymmetric(x.info.name, y.info.name);
}

/// No two rows of `rows` are of the same group and have the same name.
pub open spec fn distinct_names(rows: Seq<CollectionWithCountModel>) -> bool {
    forall|i: int, j: int|
        0 <= i < j < rows.len() ==> (#[trigger] rows[i]).info.name != (#[trigger] rows[j]).info.name
            || rows[i].info.is_system != rows[j].info.is_system
}

proof fn lemma_insert_listed_somewhere(
    sorted: Seq<CollectionWithCountModel>,
    x: CollectionWithCountModel,
) -> (at: int)
    ensures
        0 <= at <= sorted.len(),
        insert_listed(sorted, x) == sorted.insert(at, x),
    decreases sorted.len(),
{
    if sorted.len() == 0 {
        assert(seq![x] =~= sorted.insert(0, x));
        0
    } else if listed_before(sorted.last(), x) {
        assert(sorted.push(x) =~= sorted.insert(sorted.len() as int, x));
        sorted.len() as int
    } else {
        let at = lemma_insert_listed_somewhere(sorted.drop_last(), x);
        assert(sorted.drop_last().insert(at, x).push(sorted.last()) =~= sorted.insert(at, x));
        at
    }
}

proof fn lemma_listed_rows_came(rows: Seq<CollectionWithCountModel>, k: int) -> (m: int)
    requires
        0 <= k < listed(rows).len(),
    ensures
        0 <= m < rows.len(),
        rows[m] == listed(rows)[k],
{
    lemma_listed_same_rows(rows);
    let row = listed(rows)[k];
    to_multiset_contains(listed(rows), row);
    to_multiset_contains(rows, row);
    assert(listed(rows).contains(row));
    choose|m: int| 0 <= m < rows.len() && rows[m] == row
}

proof fn lemma_listed_distinct_names(rows: Seq<CollectionWithCountModel>)
    requires
        distinct_names(rows),
    ensures
        distinct_names(listed(rows)),
    decreases rows.len(),
{
    if rows.len() > 0 {
        let front = rows.drop_last();
        let x = rows.last();
        assert(distinct_names(front)) by {
            assert forall|i: int, j: int| 0 <= i < j < front.len() implies (
            #[trigger] front[i]).info.name != (#[trigger] front[j]).info.name
                || front[i].info.is_system != front[j].info.is_system by {
                assert(rows[i].info.name != rows[j].info.name || rows[i].info.is_system
                    != rows[j].info.is_system);
            }
        }
        lemma_listed_distinct_names(front);
        let sorted = listed(front);
        let at = lemma_insert_listed_somewhere(sorted, x);
        let out = listed(rows);
        assert forall|k: int| 0 <= k < sorted.len() implies (#[trigger] sorted[k]).info.name
            != x.info.name || sorted[k].info.is_system != x.info.is_system by {
            let m = lemma_listed_rows_came(front, k);
            assert(rows[m].info.name != rows[rows.len() - 1].info.name || rows[m].info.is_system
                != rows[rows.len() - 1].info.is_system);
        }
        assert forall|i: int, j: int| 0 <= i < j < out.len() implies (#[trigger] out[i]).info.name
            != (#[trigger] out[j]).info.name || out[i].info.is_system != out[j].info.is_system by {
            let a = if i < at {
                i
            } else {
                i - 1
            };
            let b = if j < at {
                j
            } else {
                j - 1
            };
            if i == at {
                assert(out[j] == sorted[b]);
            } else if j == at {
                assert(out[i] == sorted[a]);
            } else {
                assert(out[i] == sorted[a]);
                assert(out[j] == sorted[b]);
                assert(sorted[a].info.name != sorted[b].info.name || sorted[a].info.is_system
                    != sorted[b].info.is_system);
            }
        }
    }
}

/// Rows can stand in the order of the collection list in one way only,
/// where no two of them are of the same group and name.
pub proof fn lemma_order_is_unique(
    a: Seq<CollectionWithCountModel>,
    b: Seq<CollectionWithCountModel>,
)
    requires
        in_listed_order(a),
        in_listed_order(b),
        a.to_multiset() == b.to_multiset(),
        distinct_names(a),
    ensures
        a == b,
    decreases a.len(),
{
    to_multiset_len(a);
    to_multiset_len(b);
    if a.len() == 0 {
        assert(a =~= b);
    } else {
        let last = a.len() - 1;
        to_multiset_contains(a, a[last]);
        to_multiset_contains(b, a[last]);
        to_multiset_contains(a, b[last]);
        to_multiset_contains(b, b[last]);
        assert(a.contains(a[last]));
        assert(b.contains(b[last]));
        let m = choose|m: int| 0 <= m < a.len() && a[m] == b[last];
        let k = choose|k: int| 0 <= k < b.len() && b[k] == a[last];
        assert(listed_before(a[m], a[last]));
        assert(listed_before(b[k], b[last]));
        lemma_listed_ties(a[last], b[last]);
        if m != last {
            assert(a[m].info.name != a[last].info.name || a[m].info.is_system
                != a[last].info.is_system);
        }
        assert(a[last] == b[last]);
        let a_front = a.drop_last();
        let b_front = b.drop_last();
        to_multiset_build(a_front, a[last]);
        to_multiset_build(b_front, b[last]);
        assert(a_front.push(a[last]) =~= a);
        assert(b_front.push(b[last]) =~= b);
        assert(a_front.to_multiset() =~= b_front.to_multiset()) by {
            assert forall|row: CollectionWithCountModel|
                a_front.to_multiset().count(row) == b_front.to_multiset().count(row) by {
                let x = a[last];
                assert(a.to_multiset() == a_front.to_multiset().insert(x));
                assert(b.to_multiset() == b_front.to_multiset().insert(x));
                assert(a_front.to_multiset().insert(x).count(row) == b_front.to_multiset().insert(
                    x,
                ).count(row));
                if row == x {
                    vstd::multiset::lemma_insert_increases_count_by_1(a_front.to_multiset(), x);
                    vstd::multiset::lemma_insert_increases_count_by_1(b_front.to_multiset(), x);
                } else {
                    vstd::multiset::lemma_insert_other_elements_unchanged(
                        a_front.to_multiset(),
                        x,
                        row,
                    );
                    vstd::multiset::lemma_insert_other_elements_unchanged(
                        b_front.to_multiset(),
                        x,
                        row,
                    );
                }
            }
        }
        assert(in_listed_order(a_front)) by {
            assert forall|i: int, j: int| 0 <= i <= j < a_front.len() implies listed_before(
                #[trigger] a_front[i],
                #[trigger] a_front[j],
            ) by {
                assert(listed_before(a[i], a[j]));
            }
        }
        assert(in_listed_order(b_front)) by {
            assert forall|i: int, j: int| 0 <= i <= j < b_front.len() implies listed_before(
                #[trigger] b_front[i],
                #[trigger] b_front[j],
            ) by {
                assert(listed_before(b[i], b[j]));
            }
        }
        assert(distinct_names(a_front)) by {
            assert forall|i: int, j: int| 0 <= i < j < a_front.len() implies (
            #[trigger] a_front[i]).info.name != (#[trigger] a_front[j]).info.name
                || a_front[i].info.is_system != a_front[j].info.is_system by {
                assert(a[i].info.name != a[j].info.name || a[i].info.is_system
                    != a[j].info.is_system);
            }
        }
        lemma_order_is_unique(a_front, b_front);
    }
}

/// The collection list does not depend on the order in which the rows
/// came: where no two rows are of the same group and name, the same rows
/// in any order give the same list.
pub proof fn lemma_listed_any_source_order(
    rows: Seq<CollectionWithCountModel>,
    shuffled: Seq<CollectionWithCountModel>,
)
    requires
        rows.to_multiset() == shuffled.to_multiset(),
        distinct_names(rows),
    ensures
        listed(rows) == listed(shuffled),
{
    lemma_listed_in_order(rows);
    lemma_listed_in_order(shuffled);
    lemma_listed_same_rows(rows);
    lemma_listed_same_rows(shuffled);
    lemma_listed_distinct_names(rows);
    lemma_order_is_unique(listed(rows), listed(shuffled));
}

proof fn lemma_insert_listed_at(
    sorted: Seq<CollectionWithCountModel>,
    x: CollectionWithCountModel,
    at: int,
)
    requires
        0 <= at <= sorted.len(),
        at > 0 ==> listed_before(sorted[at - 1], x),
        forall|k: int| at <= k < sorted.len() ==> !listed_before(#[trigger] sorted[k], x),
    ensures
        insert_listed(sorted, x) == sorted.insert(at, x),
    decreases sorted.len() - at,
{
    if at == sorted.len() {
        if sorted.len() == 0 {
            assert(seq![x] =~= sorted.insert(at, x));
        } else {
            assert(sorted.push(x) =~= sorted.insert(at, x));
        }
    } else {
        let front = sorted.drop_last();
        assert(!listed_before(sorted[sorted.len() - 1], x));
        lemma_insert_listed_at(front, x, at);
        assert(front.insert(at, x).push(sorted.last()) =~= sorted.insert(at, x));
    }
}

proof fn lemma_models_after_remove(
    before: Vec<CollectionWithCount>,
    after: Vec<CollectionWithCount>,
    i: int,
)
    requires
        0 <= i < before@.len(),
        after@ == before@.remove(i),
    ensures
        after.deep_view() == before.deep_view().remove(i),
{
    assert(after.deep_view() =~= before.deep_view().remove(i));
}

proof fn lemma_models_after_insert(
    before: Vec<CollectionWithCount>,
    after: Vec<CollectionWithCount>,
    i: int,
    x: CollectionWithCount,
)
    requires
        0 <= i <= before@.len(),
        after@ == before@.insert(i, x),
    ensures
        after.deep_view() == before.deep_view().insert(i, x@),
{
    assert(after.deep_view() =~= before.deep_view().insert(i, x@));
}

/// Whether `x` may stand above `y` in the collection list.
pub fn stands_before(x: &CollectionWithCount, y: &CollectionWithCount) -> (yes: bool)
    ensures
        yes == listed_before(x@, y@),
{
    if x.info.is_system != y.info.is_system {
        !x.info.is_system
    } else {
        name_precedes(x.info.name.as_str(), y.info.name.as_str())
    }
}

/// Brings `rows` into the order of the collection list.
pub fn sort_collections(rows: &mut Vec<CollectionWithCount>)
    ensures
        final(rows).deep_view() == listed(old(rows).deep_view()),
{
    let ghost given = rows.deep_view();
    let mut i: usize = 0;
    proof {
        assert(given.take(0) =~= Seq::<CollectionWithCountModel>::empty());
        assert(rows.deep_view() =~= listed(given.take(0)) + given.skip(0));
    }
    while i < rows.len()
        invariant
            0 <= i <= rows.len(),
            rows.len() == given.len(),
            rows.deep_view() == listed(given.take(i as int)) + given.skip(i as int),
            listed(given.take(i as int)).len() == i,
        decreases rows.len() - i,
    {
        let ghost sorted = listed(given.take(i as int));
        let ghost before = *rows;
        let x = rows.remove(i);
        proof {
            lemma_models_after_remove(before, *rows, i as int);
            assert(x@ == before.deep_view()[i as int]);
            assert(x@ == given[i as int]);
            assert(rows.deep_view() =~= sorted + given.skip(i + 1));
        }
        let mut at: usize = i;
        while at > 0 && !stands_before(&rows[at - 1], &x)
            invariant
                0 <= at <= i,
                i < given.len(),
                rows.len() == given.len() - 1,
                sorted.len() == i,
                rows.deep_view() == sorted + given.skip(i + 1),
                forall|k: int| at <= k < sorted.len() ==> !listed_before(#[trigger] sorted[k], x@),
            decreases at,
        {
            proof {
                assert(rows.deep_view()[at - 1] == sorted[at - 1]);
            }
            at = at - 1;
        }
        proof {
            if at > 0 {
                assert(rows.deep_view()[at - 1] == sorted[at - 1]);
            }
            lemma_insert_listed_at(sorted, x@, at as int);
            assert(given.take(i + 1).drop_last() =~= given.take(i as int));
            assert(given.take(i + 1).last() == given[i as int]);
        }
        let ghost shorter = *rows;
        rows.insert(at, x);
        proof {
            lemma_models_after_insert(shorter, *rows, at as int, x);
            assert(rows.deep_view() =~= sorted.insert(at as int, given[i as int]) + given.skip(
                i + 1,
            ));
        }
        i = i + 1;
    }
    proof {
        assert(given.take(i as int) =~= given);
        assert(rows.deep_view() =~= listed(given));
    }
}

} // verus!
