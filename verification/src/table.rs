use vstd::prelude::*;

verus! {

/// A row of a table: a value that can be copied, the copy having the same
/// view.
pub trait Row: View + Sized {
    fn duplicate(&self) -> (copy: Self)
        ensures
            copy@ == self@,
    ;
}

/// The views of a sequence of rows, in order.
pub open spec fn views<T: View>(rows: Seq<T>) -> Seq<T::V> {
    rows.map_values(|row: T| row@)
}

/// Whether a relation holds between each earlier and each later row.
pub open spec fn pairwise<V>(rows: Seq<V>, rel: spec_fn(V, V) -> bool) -> bool {
    forall|i: int, j: int| 0 <= i < j < rows.len() ==> rel(rows[i], rows[j])
}

/// Whether a condition holds of every row.
pub open spec fn every<V>(rows: Seq<V>, cond: spec_fn(V) -> bool) -> bool {
    forall|i: int| 0 <= i < rows.len() ==> cond(#[trigger] rows[i])
}

/// Whether `i` is the index of the first row that satisfies a condition.
pub open spec fn is_first<V>(rows: Seq<V>, cond: spec_fn(V) -> bool, i: int) -> bool {
    &&& 0 <= i < rows.len()
    &&& cond(rows[i])
    &&& forall|k: int| 0 <= k < i ==> !cond(#[trigger] rows[k])
}

/// The first row that satisfies a condition, if any does.
pub open spec fn lookup<V>(rows: Seq<V>, cond: spec_fn(V) -> bool) -> Option<V> {
    if exists|i: int| is_first(rows, cond, i) {
        Some(rows[choose|i: int| is_first(rows, cond, i)])
    } else {
        None
    }
}

/// The lookup finds the row at the first index that satisfies the
/// condition.
pub proof fn lemma_lookup_at<V>(rows: Seq<V>, cond: spec_fn(V) -> bool, i: int)
    requires
        is_first(rows, cond, i),
    ensures
        lookup(rows, cond) == Some(rows[i]),
{
    let j = choose|j: int| is_first(rows, cond, j);
    if j < i {
        assert(!cond(rows[j]));
    }
    if i < j {
        assert(!cond(rows[i]));
    }
}

/// Where no row satisfies a condition, the lookup finds nothing.
pub proof fn lemma_lookup_none<V>(rows: Seq<V>, cond: spec_fn(V) -> bool)
    requires
        forall|k: int| 0 <= k < rows.len() ==> !cond(#[trigger] rows[k]),
    ensures
        lookup(rows, cond) is None,
{
}

/// Where some row satisfies a condition, one of them is the first.
pub proof fn lemma_first_exists<V>(rows: Seq<V>, cond: spec_fn(V) -> bool, k: int)
    requires
        0 <= k < rows.len(),
        cond(rows[k]),
    ensures
        exists|i: int| is_first(rows, cond, i),
    decreases k,
{
    if exists|j: int| 0 <= j < k && cond(rows[j]) {
        let j = choose|j: int| 0 <= j < k && cond(rows[j]);
        lemma_first_exists(rows, cond, j);
    } else {
        assert(is_first(rows, cond, k));
    }
}

/// Where a lookup finds nothing, no row satisfies the condition.
pub proof fn lemma_lookup_misses<V>(rows: Seq<V>, cond: spec_fn(V) -> bool)
    requires
        lookup(rows, cond) is None,
    ensures
        forall|k: int| 0 <= k < rows.len() ==> !cond(#[trigger] rows[k]),
{
    assert forall|k: int| 0 <= k < rows.len() implies !cond(#[trigger] rows[k]) by {
        if cond(rows[k]) {
            lemma_first_exists(rows, cond, k);
        }
    }
}

/// Where one row satisfies a condition and no other does, the lookup finds
/// that row.
pub proof fn lemma_lookup_only<V>(rows: Seq<V>, cond: spec_fn(V) -> bool, i: int)
    requires
        0 <= i < rows.len(),
        cond(rows[i]),
        forall|k: int| 0 <= k < rows.len() && k != i ==> !cond(#[trigger] rows[k]),
    ensures
        lookup(rows, cond) == Some(rows[i]),
{
    lemma_lookup_at(rows, cond, i);
}

/// What a lookup finds is a row of the table that satisfies the condition.
pub proof fn lemma_lookup_some<V>(rows: Seq<V>, cond: spec_fn(V) -> bool)
    requires
        lookup(rows, cond) is Some,
    ensures
        exists|i: int| 0 <= i < rows.len() && rows[i] == lookup(rows, cond)->0 && cond(rows[i]),
{
    let j = choose|j: int| is_first(rows, cond, j);
    assert(0 <= j < rows.len() && rows[j] == lookup(rows, cond)->0 && cond(rows[j]));
}

/// Every row that a filter keeps was there before and satisfies the
/// condition.
pub proof fn lemma_filter_member<V>(rows: Seq<V>, cond: spec_fn(V) -> bool, i: int)
    requires
        0 <= i < rows.filter(cond).len(),
    ensures
        cond(rows.filter(cond)[i]),
        exists|k: int| 0 <= k < rows.len() && rows[k] == rows.filter(cond)[i],
{
    rows.lemma_filter_pred(cond, i);
    let kept = rows.filter(cond)[i];
    assert(rows.filter(cond).contains(kept));
    rows.lemma_filter_contains_rev(cond, kept);
}

/// A relation that holds between each earlier and each later row still
/// holds between the rows that a filter keeps.
pub proof fn lemma_filter_pairs<V>(rows: Seq<V>, cond: spec_fn(V) -> bool, rel: spec_fn(V, V) -> bool)
    requires
        pairwise(rows, rel),
    ensures
        pairwise(rows.filter(cond), rel),
    decreases rows.len(),
{
    reveal(Seq::filter);
    if rows.len() > 0 {
        let front = rows.drop_last();
        let kept = front.filter(cond);
        assert forall|i: int, j: int| 0 <= i < j < front.len() implies rel(front[i], front[j]) by {
            assert(front[i] == rows[i] && front[j] == rows[j]);
        }
        lemma_filter_pairs(front, cond, rel);
        if cond(rows.last()) {
            assert(rows.filter(cond) == kept.push(rows.last()));
            assert forall|i: int, j: int| 0 <= i < j < rows.filter(cond).len() implies rel(
                rows.filter(cond)[i],
                rows.filter(cond)[j],
            ) by {
                if j == kept.len() {
                    lemma_filter_member(front, cond, i);
                    let k = choose|k: int| 0 <= k < front.len() && front[k] == kept[i];
                    assert(rows[k] == front[k]);
                    assert(rel(rows[k], rows[rows.len() - 1]));
                }
            }
        } else {
            assert(rows.filter(cond) == kept);
        }
    }
}

/// What holds of every row still holds of the rows that a filter keeps.
pub proof fn lemma_filter_every<V>(rows: Seq<V>, cond: spec_fn(V) -> bool, prop: spec_fn(V) -> bool)
    requires
        every(rows, prop),
    ensures
        every(rows.filter(cond), prop),
{
    assert forall|i: int| 0 <= i < rows.filter(cond).len() implies prop(
        #[trigger] rows.filter(cond)[i],
    ) by {
        lemma_filter_member(rows, cond, i);
    }
}

/// A filter whose condition every row satisfies keeps the table as it is.
pub proof fn lemma_filter_all<V>(rows: Seq<V>, cond: spec_fn(V) -> bool)
    requires
        every(rows, cond),
    ensures
        rows.filter(cond) == rows,
    decreases rows.len(),
{
    reveal(Seq::filter);
    if rows.len() > 0 {
        let front = rows.drop_last();
        assert forall|i: int| 0 <= i < front.len() implies cond(#[trigger] front[i]) by {
            assert(front[i] == rows[i]);
        }
        lemma_filter_all(front, cond);
        assert(cond(rows[rows.len() - 1]));
        assert(front.push(rows.last()) =~= rows);
    }
}

/// Adding a row and then removing it leaves the table as it was, where
/// the removal touches no other row.
pub proof fn lemma_push_then_remove<V>(rows: Seq<V>, row: V, cond: spec_fn(V) -> bool)
    requires
        every(rows, cond),
        !cond(row),
    ensures
        rows.push(row).filter(cond) == rows,
{
    rows.lemma_filter_push(row, cond);
    lemma_filter_all(rows, cond);
}

/// The rows that satisfy `cond`, copied in order.
pub(crate) fn retain<T: Row, F: Fn(&T) -> bool>(rows: &Vec<T>, keep: F, Ghost(cond): Ghost<spec_fn(T::V) -> bool>) -> (kept: Vec<T>)
    requires
        forall|row: &T| call_requires(keep, (row,)),
        forall|row: &T, answer: bool| call_ensures(keep, (row,), answer) ==> answer == cond(row@),
    ensures
        views(kept@) == views(rows@).filter(cond),
{
    let mut kept: Vec<T> = Vec::new();
    let mut i: usize = 0;
    proof {
        reveal(Seq::filter);
        assert(views(rows@).take(0) =~= Seq::<T::V>::empty());
        assert(views(kept@) =~= Seq::<T::V>::empty());
    }
    while i < rows.len()
        invariant
            i <= rows.len(),
            forall|row: &T| call_requires(keep, (row,)),
            forall|row: &T, answer: bool| call_ensures(keep, (row,), answer) ==> answer == cond(row@),
            views(kept@) == views(rows@).take(i as int).filter(cond),
        decreases rows.len() - i,
    {
        let row = &rows[i];
        let ghost before = views(kept@);
        proof {
            assert(views(rows@).take(i + 1) =~= views(rows@).take(i as int).push(row@));
            views(rows@).take(i as int).lemma_filter_push(row@, cond);
        }
        if keep(row) {
            let copy = row.duplicate();
            kept.push(copy);
            proof {
                assert(views(kept@) =~= before.push(row@));
            }
        }
        i += 1;
    }
    proof {
        assert(views(rows@).take(rows@.len() as int) =~= views(rows@));
    }
    kept
}

/// The index of the first row that satisfies `cond`, if any does.
pub(crate) fn position<T: View, F: Fn(&T) -> bool>(rows: &Vec<T>, matches: F, Ghost(cond): Ghost<spec_fn(T::V) -> bool>) -> (found: Option<usize>)
    requires
        forall|row: &T| call_requires(matches, (row,)),
        forall|row: &T, answer: bool| call_ensures(matches, (row,), answer) ==> answer == cond(row@),
    ensures
        match found {
            Some(i) => is_first(views(rows@), cond, i as int) && lookup(views(rows@), cond) == Some(
                rows@[i as int]@,
            ),
            None => lookup(views(rows@), cond) is None && forall|k: int|
                0 <= k < rows@.len() ==> !cond(#[trigger] views(rows@)[k]),
        },
{
    let mut i: usize = 0;
    while i < rows.len()
        invariant
            i <= rows.len(),
            forall|row: &T| call_requires(matches, (row,)),
            forall|row: &T, answer: bool| call_ensures(matches, (row,), answer) ==> answer == cond(row@),
            forall|k: int| 0 <= k < i ==> !cond(#[trigger] views(rows@)[k]),
        decreases rows.len() - i,
    {
        if matches(&rows[i]) {
            proof {
                assert(views(rows@)[i as int] == rows@[i as int]@);
                lemma_lookup_at(views(rows@), cond, i as int);
            }
            return Some(i);
        }
        proof {
            assert(views(rows@)[i as int] == rows@[i as int]@);
        }
        i += 1;
    }
    proof {
        lemma_lookup_none(views(rows@), cond);
    }
    None
}

} // verus!
