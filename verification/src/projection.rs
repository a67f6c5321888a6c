//! The row projection: which rows of a table are shown, and in what order.
//!
//! Rows are known by their index in the caller's row list. The projection
//! keeps the rows that pass every column's filter, in their original order,
//! and then sorts them stably by the sort records, the first record first.

use crate::column::Comparison;
use crate::columns::{passes, Columns};
use crate::merging::{
    is_weak_order, may_precede, merged, sorting_rearranges, sorting_sorts_stably, stably_sorted,
    strictly_before,
};
use crate::row::Row;
use crate::sort::{
    cancel_removes_one_record, is_sort_list, priority_of, requested, SortDirection, SortGesture,
    SortRecord,
};
use vstd::prelude::*;

verus! {

/// A column's result as a sort record of the given direction sees it.
pub open spec fn directed(result: Comparison, direction: SortDirection) -> Comparison {
    match direction {
        SortDirection::Ascending => result,
        SortDirection::Descending => result.reversed(),
    }
}

/// Every sort record names a column of the list.
pub open spec fn sorts_fit<R: Row, C: Columns<R>>(columns: &C, sorts: Seq<SortRecord>) -> bool {
    forall|i: int| 0 <= i < sorts.len() ==> (#[trigger] sorts[i]).column < columns.width()
}

/// What the record at `at` says of the two rows.
pub open spec fn ranks_at<R: Row, C: Columns<R>>(
    columns: &C,
    sorts: Seq<SortRecord>,
    at: int,
    a: &R,
    b: &R,
) -> Comparison {
    directed(columns.ranks(sorts[at].column as int, a, b), sorts[at].sort.direction)
}

/// How `a` stands to `b` under the records from `from` on: the result of
/// the first record that tells them apart, `Equal` if none does.
pub open spec fn ranks_from<R: Row, C: Columns<R>>(
    columns: &C,
    sorts: Seq<SortRecord>,
    from: int,
    a: &R,
    b: &R,
) -> Comparison
    decreases sorts.len() - from,
{
    if from < 0 || from >= sorts.len() {
        Comparison::Equal
    } else if ranks_at(columns, sorts, from, a, b) != Comparison::Equal {
        ranks_at(columns, sorts, from, a, b)
    } else {
        ranks_from(columns, sorts, from + 1, a, b)
    }
}

/// How `a` stands to `b` under all sort records, in priority order.
pub open spec fn ranks_by<R: Row, C: Columns<R>>(
    columns: &C,
    sorts: Seq<SortRecord>,
    a: &R,
    b: &R,
) -> Comparison {
    ranks_from(columns, sorts, 0, a, b)
}

/// How the row at index `a` stands to the row at index `b`.
pub open spec fn row_ranks<R: Row, C: Columns<R>>(
    columns: &C,
    sorts: Seq<SortRecord>,
    rows: Seq<R>,
    a: usize,
    b: usize,
) -> Comparison {
    ranks_by(columns, sorts, &rows[a as int], &rows[b as int])
}

/// The ranking of row indices that the sort records give.
pub open spec fn rank_of_rows<R: Row, C: Columns<R>>(
    columns: &C,
    sorts: Seq<SortRecord>,
    rows: Seq<R>,
) -> spec_fn(usize, usize) -> Comparison {
    |a: usize, b: usize| row_ranks(columns, sorts, rows, a, b)
}

/// The relation "the row at `a` sorts strictly before the row at `b`".
pub open spec fn sorts_before<R: Row, C: Columns<R>>(
    columns: &C,
    sorts: Seq<SortRecord>,
    rows: Seq<R>,
) -> spec_fn(usize, usize) -> bool {
    strictly_before(rank_of_rows(columns, sorts, rows))
}

/// The indices below `upto` of the rows that pass every filter, ascending.
pub open spec fn kept_rows<R: Row, C: Columns<R>>(columns: &C, rows: Seq<R>, upto: int) -> Seq<
    usize,
>
    decreases upto,
{
    if upto <= 0 {
        Seq::empty()
    } else {
        let earlier = kept_rows(columns, rows, upto - 1);
        if passes(columns, &rows[upto - 1]) {
            earlier.push((upto - 1) as usize)
        } else {
            earlier
        }
    }
}

/// The projection of `rows`: the indices of the rows that pass every
/// filter, stably sorted by the sort records if there are any.
pub open spec fn projection<R: Row, C: Columns<R>>(
    columns: &C,
    sorts: Seq<SortRecord>,
    rows: Seq<R>,
) -> Seq<usize> {
    let kept = kept_rows(columns, rows, rows.len() as int);
    if sorts.len() == 0 {
        kept
    } else {
        stably_sorted(kept, sorts_before(columns, sorts, rows))
    }
}

/// Compares two rows under the sort records, in priority order: the first
/// record that tells the rows apart decides, and a descending record
/// reverses its column's result.
pub fn compare_rows<R: Row, C: Columns<R>>(
    columns: &C,
    sorts: &Vec<SortRecord>,
    a: &R,
    b: &R,
) -> (result: Comparison)
    requires
        sorts_fit(columns, sorts@),
    ensures
        result == ranks_by(columns, sorts@, a, b),
{
    let mut i: usize = 0;
    while i < sorts.len()
        invariant
            sorts_fit(columns, sorts@),
            i <= sorts@.len(),
            ranks_by(columns, sorts@, a, b) == ranks_from(columns, sorts@, i as int, a, b),
        decreases sorts@.len() - i,
    {
        let record = sorts[i];
        let plain = columns.compare(record.column, a, b);
        let result = match record.sort.direction {
            SortDirection::Ascending => plain,
            SortDirection::Descending => plain.reverse(),
        };
        match result {
            Comparison::Equal => {},
            _ => {
                return result;
            },
        }
        i += 1;
    }
    Comparison::Equal
}

/// The indices of the rows that pass every column's filter, in their
/// original order.
pub fn filter_rows<R: Row, C: Columns<R>>(columns: &C, rows: &Vec<R>) -> (kept: Vec<usize>)
    ensures
        kept@ == kept_rows(columns, rows@, rows@.len() as int),
{
    let mut kept: Vec<usize> = Vec::new();
    let mut i: usize = 0;
    while i < rows.len()
        invariant
            i <= rows@.len(),
            kept@ == kept_rows(columns, rows@, i as int),
        decreases rows@.len() - i,
    {
        if columns.filter(&rows[i]) {
            kept.push(i);
        }
        i += 1;
    }
    kept
}

/// Merges two runs of row indices: the head of `right` goes first only
/// where its row sorts strictly before the row of the head of `left`.
fn merge_rows<R: Row, C: Columns<R>>(
    columns: &C,
    sorts: &Vec<SortRecord>,
    rows: &Vec<R>,
    left: &Vec<usize>,
    right: &Vec<usize>,
) -> (out: Vec<usize>)
    requires
        sorts_fit(columns, sorts@),
        forall|k: int| 0 <= k < left@.len() ==> #[trigger] left@[k] < rows@.len(),
        forall|k: int| 0 <= k < right@.len() ==> #[trigger] right@[k] < rows@.len(),
    ensures
        out@ == merged(left@, right@, sorts_before(columns, sorts@, rows@)),
        forall|k: int| 0 <= k < out@.len() ==> #[trigger] out@[k] < rows@.len(),
{
    let ghost before = sorts_before(columns, sorts@, rows@);
    let mut out: Vec<usize> = Vec::new();
    let mut i: usize = 0;
    let mut j: usize = 0;
    proof {
        assert(left@.skip(0) =~= left@);
        assert(right@.skip(0) =~= right@);
        assert(out@ + merged(left@, right@, before) =~= merged(left@, right@, before));
    }
    while i < left.len() && j < right.len()
        invariant
            sorts_fit(columns, sorts@),
            before == sorts_before(columns, sorts@, rows@),
            forall|k: int| 0 <= k < left@.len() ==> #[trigger] left@[k] < rows@.len(),
            forall|k: int| 0 <= k < right@.len() ==> #[trigger] right@[k] < rows@.len(),
            forall|k: int| 0 <= k < out@.len() ==> #[trigger] out@[k] < rows@.len(),
            i <= left@.len(),
            j <= right@.len(),
            out@ + merged(left@.skip(i as int), right@.skip(j as int), before) == merged(
                left@,
                right@,
                before,
            ),
        decreases left@.len() - i + right@.len() - j,
    {
        let ghost earlier = out@;
        let ghost ahead = merged(left@.skip(i as int), right@.skip(j as int), before);
        let x = left[i];
        let y = right[j];
        assert(left@.skip(i as int)[0] == x);
        assert(right@.skip(j as int)[0] == y);
        if compare_rows(columns, sorts, &rows[y], &rows[x]).is_less() {
            out.push(y);
            j += 1;
            proof {
                assert(right@.skip(j - 1).drop_first() =~= right@.skip(j as int));
                let rest = merged(left@.skip(i as int), right@.skip(j as int), before);
                assert(ahead == seq![y] + rest);
                assert(out@ + rest =~= earlier + ahead);
            }
        } else {
            out.push(x);
            i += 1;
            proof {
                assert(left@.skip(i - 1).drop_first() =~= left@.skip(i as int));
                let rest = merged(left@.skip(i as int), right@.skip(j as int), before);
                assert(ahead == seq![x] + rest);
                assert(out@ + rest =~= earlier + ahead);
            }
        }
    }
    proof {
        let ahead = merged(left@.skip(i as int), right@.skip(j as int), before);
        assert(ahead =~= left@.skip(i as int) + right@.skip(j as int));
    }
    while i < left.len()
        invariant
            forall|k: int| 0 <= k < left@.len() ==> #[trigger] left@[k] < rows@.len(),
            forall|k: int| 0 <= k < out@.len() ==> #[trigger] out@[k] < rows@.len(),
            i <= left@.len(),
            j <= right@.len(),
            out@ + (left@.skip(i as int) + right@.skip(j as int)) == merged(left@, right@, before),
        decreases left@.len() - i,
    {
        let ghost earlier = out@;
        out.push(left[i]);
        i += 1;
        proof {
            assert(out@ + (left@.skip(i as int) + right@.skip(j as int)) =~= earlier + (left@.skip(
                i - 1,
            ) + right@.skip(j as int)));
        }
    }
    while j < right.len()
        invariant
            forall|k: int| 0 <= k < right@.len() ==> #[trigger] right@[k] < rows@.len(),
            forall|k: int| 0 <= k < out@.len() ==> #[trigger] out@[k] < rows@.len(),
            i == left@.len(),
            j <= right@.len(),
            out@ + (left@.skip(i as int) + right@.skip(j as int)) == merged(left@, right@, before),
        decreases right@.len() - j,
    {
        let ghost earlier = out@;
        out.push(right[j]);
        j += 1;
        proof {
            assert(out@ + (left@.skip(i as int) + right@.skip(j as int)) =~= earlier + (left@.skip(
                i as int,
            ) + right@.skip(j - 1)));
        }
    }
    proof {
        assert(out@ + (left@.skip(i as int) + right@.skip(j as int)) =~= out@);
    }
    out
}

/// Sorts the row indices from `from` up to `to` stably by the sort records.
fn sort_range<R: Row, C: Columns<R>>(
    columns: &C,
    sorts: &Vec<SortRecord>,
    rows: &Vec<R>,
    indices: &Vec<usize>,
    from: usize,
    to: usize,
) -> (sorted: Vec<usize>)
    requires
        sorts_fit(columns, sorts@),
        forall|k: int| 0 <= k < indices@.len() ==> #[trigger] indices@[k] < rows@.len(),
        from <= to <= indices@.len(),
    ensures
        sorted@ == stably_sorted(
            indices@.subrange(from as int, to as int),
            sorts_before(columns, sorts@, rows@),
        ),
        forall|k: int| 0 <= k < sorted@.len() ==> #[trigger] sorted@[k] < rows@.len(),
    decreases to - from,
{
    let ghost range = indices@.subrange(from as int, to as int);
    if to - from <= 1 {
        let mut sorted: Vec<usize> = Vec::new();
        if from < to {
            sorted.push(indices[from]);
        }
        assert(sorted@ =~= range);
        sorted
    } else {
        let half = (to - from) / 2;
        let middle = from + half;
        let left = sort_range(columns, sorts, rows, indices, from, middle);
        let right = sort_range(columns, sorts, rows, indices, middle, to);
        proof {
            assert(range.take(half as int) =~= indices@.subrange(from as int, middle as int));
            assert(range.skip(half as int) =~= indices@.subrange(middle as int, to as int));
            assert(half == range.len() / 2);
        }
        merge_rows(columns, sorts, rows, &left, &right)
    }
}

/// Sorts row indices stably by the sort records.
pub fn sort_rows<R: Row, C: Columns<R>>(
    columns: &C,
    sorts: &Vec<SortRecord>,
    rows: &Vec<R>,
    indices: &Vec<usize>,
) -> (sorted: Vec<usize>)
    requires
        sorts_fit(columns, sorts@),
        forall|k: int| 0 <= k < indices@.len() ==> #[trigger] indices@[k] < rows@.len(),
    ensures
        sorted@ == stably_sorted(indices@, sorts_before(columns, sorts@, rows@)),
{
    proof {
        assert(indices@.subrange(0, indices@.len() as int) =~= indices@);
    }
    sort_range(columns, sorts, rows, indices, 0, indices.len())
}

/// The row projection: the rows that pass every column's filter, in their
/// original order, then stably sorted by the sort records if there are any.
pub fn project_rows<R: Row, C: Columns<R>>(
    columns: &C,
    sorts: &Vec<SortRecord>,
    rows: &Vec<R>,
) -> (indices: Vec<usize>)
    requires
        sorts_fit(columns, sorts@),
    ensures
        indices@ == projection(columns, sorts@, rows@),
{
    let kept = filter_rows(columns, rows);
    if sorts.len() == 0 {
        kept
    } else {
        proof {
            assert(rows@.len() == rows.len());
            kept_rows_are_the_passing_rows(columns, rows@, rows@.len() as int);
        }
        sort_rows(columns, sorts, rows, &kept)
    }
}

/// Filtering is the conjunction of all column filters: a row index is kept
/// if and only if the row passes the filter of every column. The kept
/// indices stand in ascending order, so each is kept once and the rows keep
/// their original order.
pub proof fn kept_rows_are_the_passing_rows<R: Row, C: Columns<R>>(
    columns: &C,
    rows: Seq<R>,
    upto: int,
)
    requires
        0 <= upto <= rows.len(),
        rows.len() <= usize::MAX,
    ensures
        forall|k: int|
            0 <= k < kept_rows(columns, rows, upto).len() ==> (#[trigger] kept_rows(
                columns,
                rows,
                upto,
            )[k]) < upto,
        forall|k: int, l: int|
            0 <= k < l < kept_rows(columns, rows, upto).len() ==> (#[trigger] kept_rows(
                columns,
                rows,
                upto,
            )[k]) < (#[trigger] kept_rows(columns, rows, upto)[l]),
        forall|i: usize|
            kept_rows(columns, rows, upto).contains(i) <==> (i < upto && passes(
                columns,
                &rows[i as int],
            )),
    decreases upto,
{
    if upto > 0 {
        kept_rows_are_the_passing_rows(columns, rows, upto - 1);
        let earlier = kept_rows(columns, rows, upto - 1);
        let kept = kept_rows(columns, rows, upto);
        let last = (upto - 1) as usize;
        assert forall|i: usize| kept.contains(i) <==> (i < upto && passes(
            columns,
            &rows[i as int],
        )) by {
            if kept.contains(i) {
                let k = choose|k: int| 0 <= k < kept.len() && kept[k] == i;
                if k < earlier.len() {
                    assert(earlier[k] == i);
                    assert(earlier.contains(i));
                }
            }
            if i < upto && passes(columns, &rows[i as int]) {
                if i == last {
                    assert(kept[kept.len() - 1] == i);
                } else {
                    assert(earlier.contains(i));
                    let k = choose|k: int| 0 <= k < earlier.len() && earlier[k] == i;
                    assert(kept[k] == i);
                }
            }
        }
    } else {
        let kept = kept_rows(columns, rows, upto);
        assert forall|i: usize| !kept.contains(i) by {}
    }
}

/// A gesture on a column of the list keeps the sort records fit for
/// projecting.
pub proof fn request_keeps_sorts_fit<R: Row, C: Columns<R>>(
    columns: &C,
    sorts: Seq<SortRecord>,
    column: usize,
    gesture: SortGesture,
)
    requires
        is_sort_list(sorts),
        sorts_fit(columns, sorts),
        column < columns.width() || gesture == SortGesture::Cancel || gesture
            == SortGesture::Toggle,
    ensures
        sorts_fit(columns, requested(sorts, column, gesture)),
{
    let after = requested(sorts, column, gesture);
    cancel_removes_one_record(sorts, column);
    let rest = crate::sort::cancelled(sorts, column);
    assert(sorts_fit(columns, rest)) by {
        assert forall|k: int| 0 <= k < rest.len() implies (#[trigger] rest[k]).column
            < columns.width() by {
            match priority_of(sorts, column) {
                Some(i) => {
                    let pk = if k < i { k } else { k + 1 };
                    assert(rest[k] == sorts[pk]);
                },
                None => {},
            }
        }
    }
    assert forall|k: int| 0 <= k < after.len() implies (#[trigger] after[k]).column
        < columns.width() by {
        match gesture {
            SortGesture::Cancel => {},
            SortGesture::AddFirst(sort) => {
                if k > 0 {
                    assert(after[k] == rest[k - 1]);
                }
            },
            SortGesture::AddLast(sort) => {
                if k < rest.len() {
                    assert(after[k] == rest[k]);
                }
            },
            SortGesture::Toggle => {
                assert(after[k].column == sorts[k].column) by {
                    crate::sort::toggle_flips_in_place(sorts, column);
                }
            },
        }
    }
}

/// Multi-key sorting resolves ties in priority order: if every record
/// before `at` finds the two rows equal, the records from `at` on decide.
/// So the first record that tells the rows apart gives the result, and rows
/// that no record tells apart are equal.
pub proof fn first_deciding_record_decides<R: Row, C: Columns<R>>(
    columns: &C,
    sorts: Seq<SortRecord>,
    a: &R,
    b: &R,
    at: int,
)
    requires
        0 <= at <= sorts.len(),
        forall|k: int| 0 <= k < at ==> ranks_at(columns, sorts, k, a, b) == Comparison::Equal,
    ensures
        ranks_by(columns, sorts, a, b) == ranks_from(columns, sorts, at, a, b),
        at == sorts.len() ==> ranks_by(columns, sorts, a, b) == Comparison::Equal,
        at < sorts.len() && ranks_at(columns, sorts, at, a, b) != Comparison::Equal ==> ranks_by(
            columns,
            sorts,
            a,
            b,
        ) == ranks_at(columns, sorts, at, a, b),
    decreases at,
{
    if at > 0 {
        first_deciding_record_decides(columns, sorts, a, b, at - 1);
    }
}

/// The ranking of row indices that one column gives.
pub open spec fn rank_of_column<R: Row, C: Columns<R>>(
    columns: &C,
    column: usize,
    rows: Seq<R>,
) -> spec_fn(usize, usize) -> Comparison {
    |a: usize, b: usize| columns.ranks(column as int, &rows[a as int], &rows[b as int])
}

/// Every column that a sort record names ranks the rows consistently.
pub open spec fn columns_rank_consistently<R: Row, C: Columns<R>>(
    columns: &C,
    sorts: Seq<SortRecord>,
    rows: Seq<R>,
) -> bool {
    forall|k: int|
        0 <= k < sorts.len() ==> is_weak_order(
            rank_of_column(columns, (#[trigger] sorts[k]).column, rows),
        )
}

/// Where the sorted columns rank the rows consistently, so do the sort
/// records from `from` on, for the rows at `a`, `b` and `c`.
proof fn lemma_ranks_from_consistent<R: Row, C: Columns<R>>(
    columns: &C,
    sorts: Seq<SortRecord>,
    rows: Seq<R>,
    from: int,
    a: usize,
    b: usize,
    c: usize,
)
    requires
        columns_rank_consistently(columns, sorts, rows),
        0 <= from <= sorts.len(),
    ensures
        ranks_from(columns, sorts, from, &rows[a as int], &rows[b as int]).reversed() == ranks_from(
            columns,
            sorts,
            from,
            &rows[b as int],
            &rows[a as int],
        ),
        ranks_from(columns, sorts, from, &rows[a as int], &rows[b as int]) != Comparison::Greater
            && ranks_from(columns, sorts, from, &rows[b as int], &rows[c as int])
            != Comparison::Greater ==> ranks_from(
            columns,
            sorts,
            from,
            &rows[a as int],
            &rows[c as int],
        ) != Comparison::Greater,
    decreases sorts.len() - from,
{
    if from < sorts.len() {
        lemma_ranks_from_consistent(columns, sorts, rows, from + 1, a, b, c);
        let rank = rank_of_column(columns, sorts[from].column, rows);
        assert(is_weak_order(rank));
        assert(rank(a, b).reversed() == rank(b, a));
        assert(rank(b, c).reversed() == rank(c, b));
        assert(rank(a, c).reversed() == rank(c, a));
        assert(ranks_at(columns, sorts, from, &rows[a as int], &rows[b as int]) == directed(
            rank(a, b),
            sorts[from].sort.direction,
        ));
        assert(ranks_at(columns, sorts, from, &rows[b as int], &rows[a as int]) == directed(
            rank(b, a),
            sorts[from].sort.direction,
        ));
        assert(ranks_at(columns, sorts, from, &rows[b as int], &rows[c as int]) == directed(
            rank(b, c),
            sorts[from].sort.direction,
        ));
        assert(ranks_at(columns, sorts, from, &rows[a as int], &rows[c as int]) == directed(
            rank(a, c),
            sorts[from].sort.direction,
        ));
    }
}

/// Where every sorted column ranks the rows consistently, so do the sort
/// records together.
pub proof fn consistent_columns_rank_rows_consistently<R: Row, C: Columns<R>>(
    columns: &C,
    sorts: Seq<SortRecord>,
    rows: Seq<R>,
)
    requires
        columns_rank_consistently(columns, sorts, rows),
    ensures
        is_weak_order(rank_of_rows(columns, sorts, rows)),
{
    let rank = rank_of_rows(columns, sorts, rows);
    assert forall|a: usize, b: usize| (#[trigger] rank(a, b)).reversed() == rank(b, a) by {
        lemma_ranks_from_consistent(columns, sorts, rows, 0, a, b, a);
    }
    assert forall|a: usize, b: usize, c: usize|
        #[trigger] rank(a, b) != Comparison::Greater && #[trigger] rank(b, c)
            != Comparison::Greater implies rank(a, c) != Comparison::Greater by {
        lemma_ranks_from_consistent(columns, sorts, rows, 0, a, b, c);
    }
}

/// The projection holds exactly the rows that pass every filter, each
/// once, whatever the sort records are.
pub proof fn projection_holds_the_passing_rows<R: Row, C: Columns<R>>(
    columns: &C,
    sorts: Seq<SortRecord>,
    rows: Seq<R>,
)
    requires
        rows.len() <= usize::MAX,
    ensures
        projection(columns, sorts, rows).to_multiset() == kept_rows(
            columns,
            rows,
            rows.len() as int,
        ).to_multiset(),
        projection(columns, sorts, rows).len() == kept_rows(columns, rows, rows.len() as int).len(),
        forall|i: usize|
            projection(columns, sorts, rows).contains(i) <==> (i < rows.len() && passes(
                columns,
                &rows[i as int],
            )),
{
    let kept = kept_rows(columns, rows, rows.len() as int);
    let before = sorts_before(columns, sorts, rows);
    kept_rows_are_the_passing_rows(columns, rows, rows.len() as int);
    sorting_rearranges(kept, before);
    let shown = projection(columns, sorts, rows);
    assert forall|i: usize|
        shown.contains(i) <==> (i < rows.len() && passes(columns, &rows[i as int])) by {
        assert(shown.contains(i) <==> kept.contains(i));
        assert(kept.contains(i) <==> (i < rows.len() && passes(columns, &rows[i as int])));
    }
}

/// Where the sort records rank the rows consistently, the projection is
/// sorted, and stably: no row ranks after a row that follows it, and rows
/// that the sort records do not tell apart keep their original order.
pub proof fn projection_is_sorted_and_stable<R: Row, C: Columns<R>>(
    columns: &C,
    sorts: Seq<SortRecord>,
    rows: Seq<R>,
)
    requires
        rows.len() <= usize::MAX,
        is_weak_order(rank_of_rows(columns, sorts, rows)),
    ensures
        forall|i: int, j: int|
            0 <= i < j < projection(columns, sorts, rows).len() ==> {
                let a = #[trigger] projection(columns, sorts, rows)[i];
                let b = #[trigger] projection(columns, sorts, rows)[j];
                &&& row_ranks(columns, sorts, rows, a, b) != Comparison::Greater
                &&& row_ranks(columns, sorts, rows, a, b) == Comparison::Equal ==> a < b
            },
{
    let rank = rank_of_rows(columns, sorts, rows);
    let kept = kept_rows(columns, rows, rows.len() as int);
    let shown = projection(columns, sorts, rows);
    kept_rows_are_the_passing_rows(columns, rows, rows.len() as int);
    if sorts.len() != 0 {
        sorting_sorts_stably(kept, rank);
        sorting_rearranges(kept, strictly_before(rank));
        // Each kept row occurs once, so two places hold two rows.
        assert(kept.no_duplicates());
        kept.lemma_multiset_has_no_duplicates();
        shown.lemma_multiset_has_no_duplicates_conv();
    }
    assert forall|i: int, j: int| 0 <= i < j < shown.len() implies {
        let a = #[trigger] shown[i];
        let b = #[trigger] shown[j];
        &&& row_ranks(columns, sorts, rows, a, b) != Comparison::Greater
        &&& row_ranks(columns, sorts, rows, a, b) == Comparison::Equal ==> a < b
    } by {
        let a = shown[i];
        let b = shown[j];
        if sorts.len() != 0 {
            assert(may_precede(rank, a, b));
            assert(a != b);
        }
    }
}

} // verus!
