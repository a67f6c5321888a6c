//! Stable merge sort of row indices, and what it guarantees.

use crate::column::Comparison;
use vstd::multiset::Multiset;
use vstd::prelude::*;

verus! {

/// Two sorted runs merged into one: the head of `right` goes first only
/// where it comes strictly before the head of `left`.
pub open spec fn merged(left: Seq<usize>, right: Seq<usize>, before: spec_fn(usize, usize) -> bool) -> Seq<
    usize,
>
    decreases left.len() + right.len(),
{
    if left.len() == 0 {
        right
    } else if right.len() == 0 {
        left
    } else if before(right[0], left[0]) {
        seq![right[0]] + merged(left, right.drop_first(), before)
    } else {
        seq![left[0]] + merged(left.drop_first(), right, before)
    }
}

/// `items` sorted by merging: each half is sorted, and the halves are
/// merged.
pub open spec fn stably_sorted(items: Seq<usize>, before: spec_fn(usize, usize) -> bool) -> Seq<
    usize,
>
    decreases items.len(),
{
    if items.len() <= 1 {
        items
    } else {
        let half = (items.len() / 2) as int;
        merged(
            stably_sorted(items.take(half), before),
            stably_sorted(items.skip(half), before),
            before,
        )
    }
}

/// The relation "`a` ranks strictly before `b`".
pub open spec fn strictly_before(rank: spec_fn(usize, usize) -> Comparison) -> spec_fn(
    usize,
    usize,
) -> bool {
    |a: usize, b: usize| rank(a, b) == Comparison::Less
}

/// The items of `items` stand in strictly ascending order.
pub open spec fn is_ascending(items: Seq<usize>) -> bool {
    forall|k: int, l: int| 0 <= k < l < items.len() ==> items[k] < items[l]
}

/// `rank` orders consistently: swapping the arguments reverses the result,
/// and "not after" carries over from `a`, `b` and `b`, `c` to `a`, `c`.
pub open spec fn is_weak_order(rank: spec_fn(usize, usize) -> Comparison) -> bool {
    &&& forall|a: usize, b: usize| (#[trigger] rank(a, b)).reversed() == rank(b, a)
    &&& forall|a: usize, b: usize, c: usize|
        #[trigger] rank(a, b) != Comparison::Greater && #[trigger] rank(b, c)
            != Comparison::Greater ==> rank(a, c) != Comparison::Greater
}

/// `a` may stand ahead of `b` in a stable sort: it ranks before `b`, or the
/// two rank equal and `a` is not the greater index.
pub open spec fn may_precede(rank: spec_fn(usize, usize) -> Comparison, a: usize, b: usize) -> bool {
    rank(a, b) == Comparison::Less || (rank(a, b) == Comparison::Equal && a <= b)
}

/// Every item of `items` may stand ahead of every item behind it.
pub open spec fn in_stable_order(items: Seq<usize>, rank: spec_fn(usize, usize) -> Comparison) -> bool {
    forall|i: int, j: int|
        0 <= i < j < items.len() ==> may_precede(rank, #[trigger] items[i], #[trigger] items[j])
}

/// Merging rearranges: the result holds the items of both runs, each as
/// often as the runs do.
pub proof fn merging_rearranges(
    left: Seq<usize>,
    right: Seq<usize>,
    before: spec_fn(usize, usize) -> bool,
)
    ensures
        merged(left, right, before).len() == left.len() + right.len(),
        merged(left, right, before).to_multiset() == left.to_multiset().add(right.to_multiset()),
        forall|x: usize|
            merged(left, right, before).contains(x) <==> left.contains(x) || right.contains(x),
    decreases left.len() + right.len(),
{
    broadcast use vstd::multiset::group_multiset_axioms;

    let out = merged(left, right, before);
    if left.len() == 0 {
        assert(left.to_multiset() =~= Multiset::<usize>::empty()) by {
            left.to_multiset_ensures();
        }
        assert(out.to_multiset() =~= left.to_multiset().add(right.to_multiset()));
    } else if right.len() == 0 {
        assert(right.to_multiset() =~= Multiset::<usize>::empty()) by {
            right.to_multiset_ensures();
        }
        assert(out.to_multiset() =~= left.to_multiset().add(right.to_multiset()));
    } else if before(right[0], left[0]) {
        let rest = merged(left, right.drop_first(), before);
        merging_rearranges(left, right.drop_first(), before);
        assert(out =~= rest.insert(0, right[0]));
        vstd::seq_lib::to_multiset_insert(rest, 0, right[0]);
        assert(right =~= right.drop_first().insert(0, right[0]));
        vstd::seq_lib::to_multiset_insert(right.drop_first(), 0, right[0]);
        assert(out.to_multiset() =~= left.to_multiset().add(right.to_multiset()));
    } else {
        let rest = merged(left.drop_first(), right, before);
        merging_rearranges(left.drop_first(), right, before);
        assert(out =~= rest.insert(0, left[0]));
        vstd::seq_lib::to_multiset_insert(rest, 0, left[0]);
        assert(left =~= left.drop_first().insert(0, left[0]));
        vstd::seq_lib::to_multiset_insert(left.drop_first(), 0, left[0]);
        assert(out.to_multiset() =~= left.to_multiset().add(right.to_multiset()));
    }
    assert forall|x: usize| out.contains(x) <==> left.contains(x) || right.contains(x) by {
        vstd::seq_lib::to_multiset_contains(out, x);
        vstd::seq_lib::to_multiset_contains(left, x);
        vstd::seq_lib::to_multiset_contains(right, x);
    }
}

/// Sorting rearranges: every item occurs in the result as often as in the
/// input.
pub proof fn sorting_rearranges(items: Seq<usize>, before: spec_fn(usize, usize) -> bool)
    ensures
        stably_sorted(items, before).len() == items.len(),
        stably_sorted(items, before).to_multiset() == items.to_multiset(),
        forall|x: usize| stably_sorted(items, before).contains(x) <==> items.contains(x),
    decreases items.len(),
{
    let sorted = stably_sorted(items, before);
    if items.len() > 1 {
        let half = (items.len() / 2) as int;
        let left = items.take(half);
        let right = items.skip(half);
        sorting_rearranges(left, before);
        sorting_rearranges(right, before);
        merging_rearranges(stably_sorted(left, before), stably_sorted(right, before), before);
        vstd::seq_lib::lemma_multiset_commutative(left, right);
        assert(left + right =~= items);
    }
    assert forall|x: usize| sorted.contains(x) <==> items.contains(x) by {
        vstd::seq_lib::to_multiset_contains(sorted, x);
        vstd::seq_lib::to_multiset_contains(items, x);
    }
}

/// Under a consistent ranking, "may stand ahead of" carries over from `a`,
/// `b` and `b`, `c` to `a`, `c`.
pub proof fn may_precede_carries_over(
    rank: spec_fn(usize, usize) -> Comparison,
    a: usize,
    b: usize,
    c: usize,
)
    requires
        is_weak_order(rank),
        may_precede(rank, a, b),
        may_precede(rank, b, c),
    ensures
        may_precede(rank, a, c),
{
    assert(rank(a, b) != Comparison::Greater);
    assert(rank(b, c) != Comparison::Greater);
    assert(rank(a, c) != Comparison::Greater);
    if rank(a, c) == Comparison::Equal {
        assert(rank(a, c).reversed() == rank(c, a));
        assert(rank(c, a) != Comparison::Greater);
        // c is not after a, a is not after b: c is not after b
        assert(rank(c, b) != Comparison::Greater);
        assert(rank(b, c).reversed() == rank(c, b));
        assert(rank(b, c) == Comparison::Equal);
        // b is not after c, c is not after a: b is not after a
        assert(rank(b, a) != Comparison::Greater);
        assert(rank(a, b).reversed() == rank(b, a));
        assert(rank(a, b) == Comparison::Equal);
    }
}

/// Under a consistent ranking, merging two runs that are in stable order,
/// the first of which holds the smaller indices, gives a run in stable
/// order.
pub proof fn merging_keeps_stable_order(
    left: Seq<usize>,
    right: Seq<usize>,
    rank: spec_fn(usize, usize) -> Comparison,
)
    requires
        is_weak_order(rank),
        in_stable_order(left, rank),
        in_stable_order(right, rank),
        forall|i: int, j: int|
            0 <= i < left.len() && 0 <= j < right.len() ==> #[trigger] left[i] <= #[trigger] right[j],
    ensures
        in_stable_order(merged(left, right, strictly_before(rank)), rank),
    decreases left.len() + right.len(),
{
    let before = strictly_before(rank);
    let out = merged(left, right, before);
    if left.len() > 0 && right.len() > 0 {
        let l0 = left[0];
        let r0 = right[0];
        assert(rank(r0, l0).reversed() == rank(l0, r0));
        if before(r0, l0) {
            let tail = right.drop_first();
            let rest = merged(left, tail, before);
            assert forall|i: int, j: int| 0 <= i < j < tail.len() implies may_precede(
                rank,
                #[trigger] tail[i],
                #[trigger] tail[j],
            ) by {
                assert(tail[i] == right[i + 1]);
                assert(tail[j] == right[j + 1]);
            }
            assert forall|i: int, j: int|
                0 <= i < left.len() && 0 <= j < tail.len() implies #[trigger] left[i]
                <= #[trigger] tail[j] by {
                assert(tail[j] == right[j + 1]);
            }
            merging_keeps_stable_order(left, tail, rank);
            merging_rearranges(left, tail, before);
            assert(out =~= seq![r0] + rest);
            assert forall|i: int, j: int| 0 <= i < j < out.len() implies may_precede(
                rank,
                #[trigger] out[i],
                #[trigger] out[j],
            ) by {
                if i == 0 {
                    let y = rest[j - 1];
                    assert(out[j] == y);
                    assert(rest.contains(y));
                    if left.contains(y) {
                        let k = choose|k: int| 0 <= k < left.len() && left[k] == y;
                        if k > 0 {
                            assert(may_precede(rank, left[0], left[k]));
                        } else {
                            assert(rank(l0, l0).reversed() == rank(l0, l0));
                        }
                        assert(may_precede(rank, l0, y));
                        assert(may_precede(rank, r0, l0));
                        may_precede_carries_over(rank, r0, l0, y);
                    } else {
                        assert(tail.contains(y));
                        let k = choose|k: int| 0 <= k < tail.len() && tail[k] == y;
                        assert(tail[k] == right[k + 1]);
                        assert(may_precede(rank, right[0], right[k + 1]));
                    }
                } else {
                    assert(out[i] == rest[i - 1]);
                    assert(out[j] == rest[j - 1]);
                }
            }
        } else {
            let tail = left.drop_first();
            let rest = merged(tail, right, before);
            assert forall|i: int, j: int| 0 <= i < j < tail.len() implies may_precede(
                rank,
                #[trigger] tail[i],
                #[trigger] tail[j],
            ) by {
                assert(tail[i] == left[i + 1]);
                assert(tail[j] == left[j + 1]);
            }
            assert forall|i: int, j: int|
                0 <= i < tail.len() && 0 <= j < right.len() implies #[trigger] tail[i]
                <= #[trigger] right[j] by {
                assert(tail[i] == left[i + 1]);
            }
            merging_keeps_stable_order(tail, right, rank);
            merging_rearranges(tail, right, before);
            assert(out =~= seq![l0] + rest);
            assert(left[0] <= right[0]);
            assert(may_precede(rank, l0, r0));
            assert forall|i: int, j: int| 0 <= i < j < out.len() implies may_precede(
                rank,
                #[trigger] out[i],
                #[trigger] out[j],
            ) by {
                if i == 0 {
                    let y = rest[j - 1];
                    assert(out[j] == y);
                    assert(rest.contains(y));
                    if tail.contains(y) {
                        let k = choose|k: int| 0 <= k < tail.len() && tail[k] == y;
                        assert(tail[k] == left[k + 1]);
                        assert(may_precede(rank, left[0], left[k + 1]));
                    } else {
                        assert(right.contains(y));
                        let k = choose|k: int| 0 <= k < right.len() && right[k] == y;
                        if k > 0 {
                            assert(may_precede(rank, right[0], right[k]));
                        } else {
                            assert(rank(r0, r0).reversed() == rank(r0, r0));
                        }
                        assert(may_precede(rank, r0, y));
                        may_precede_carries_over(rank, l0, r0, y);
                    }
                } else {
                    assert(out[i] == rest[i - 1]);
                    assert(out[j] == rest[j - 1]);
                }
            }
        }
    }
}

/// Sorting sorts, and stably: under a consistent ranking, the result of
/// sorting ascending items is in stable order. No item ranks after an item
/// behind it, and items that rank equal keep their order.
pub proof fn sorting_sorts_stably(items: Seq<usize>, rank: spec_fn(usize, usize) -> Comparison)
    requires
        is_weak_order(rank),
        is_ascending(items),
    ensures
        in_stable_order(stably_sorted(items, strictly_before(rank)), rank),
    decreases items.len(),
{
    let before = strictly_before(rank);
    if items.len() > 1 {
        let half = (items.len() / 2) as int;
        let left = items.take(half);
        let right = items.skip(half);
        assert forall|k: int, l: int| 0 <= k < l < left.len() implies left[k] < left[l] by {
            assert(left[k] == items[k]);
            assert(left[l] == items[l]);
        }
        assert forall|k: int, l: int| 0 <= k < l < right.len() implies right[k] < right[l] by {
            assert(right[k] == items[k + half]);
            assert(right[l] == items[l + half]);
        }
        sorting_sorts_stably(left, rank);
        sorting_sorts_stably(right, rank);
        sorting_rearranges(left, before);
        sorting_rearranges(right, before);
        let sorted_left = stably_sorted(left, before);
        let sorted_right = stably_sorted(right, before);
        assert forall|i: int, j: int|
            0 <= i < sorted_left.len() && 0 <= j < sorted_right.len() implies #[trigger] sorted_left[i]
            <= #[trigger] sorted_right[j] by {
            assert(sorted_left.contains(sorted_left[i]));
            assert(sorted_right.contains(sorted_right[j]));
            assert(left.contains(sorted_left[i]));
            assert(right.contains(sorted_right[j]));
            let k = choose|k: int| 0 <= k < left.len() && left[k] == sorted_left[i];
            let l = choose|l: int| 0 <= l < right.len() && right[l] == sorted_right[j];
            assert(left[k] == items[k]);
            assert(right[l] == items[l + half]);
        }
        merging_keeps_stable_order(sorted_left, sorted_right, rank);
    }
}

} // verus!
