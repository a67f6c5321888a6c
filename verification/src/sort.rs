//! The sort state of a table: an ordered list of sort records, at most one
//! per column, the first of which has the highest priority.

use vstd::prelude::*;

verus! {

/// The direction of sorting.
#[derive(Clone, Copy, PartialEq, Eq, Debug, Structural)]
pub enum SortDirection {
    /// Sort in ascending order (A to Z, 0 to 9).
    Ascending,
    /// Sort in descending order (Z to A, 9 to 0).
    Descending,
}

impl SortDirection {
    /// The other direction.
    pub open spec fn flipped(self) -> SortDirection {
        match self {
            SortDirection::Ascending => SortDirection::Descending,
            SortDirection::Descending => SortDirection::Ascending,
        }
    }

    /// The other direction.
    pub fn flip(self) -> (result: SortDirection)
        ensures
            result == self.flipped(),
    {
        match self {
            SortDirection::Ascending => SortDirection::Descending,
            SortDirection::Descending => SortDirection::Ascending,
        }
    }
}

/// A sort operation with a direction.
#[derive(Clone, Copy, PartialEq, Eq, Debug, Structural)]
pub struct Sort {
    /// The direction of this sort.
    pub direction: SortDirection,
}

/// The sort state of one column.
#[derive(Clone, Copy, PartialEq, Eq, Debug, Structural)]
pub struct SortInfo {
    /// The sort priority (0 = highest priority).
    pub priority: usize,
    /// The direction of the sort.
    pub direction: SortDirection,
}

/// A user gesture to change the sort state of one column.
#[derive(Clone, Copy, PartialEq, Eq, Debug, Structural)]
pub enum SortGesture {
    /// Remove sorting from this column.
    Cancel,
    /// Make this column the primary sort, pushing others down in priority.
    AddFirst(Sort),
    /// Make this column the last (lowest priority) sort.
    AddLast(Sort),
    /// Flip the sort direction of this column. Does nothing if the column
    /// is not sorted.
    Toggle,
}

/// One column's part in the active sort.
#[derive(Clone, Copy, PartialEq, Eq, Debug, Structural)]
pub struct SortRecord {
    /// The index of the column in the declaration list.
    pub column: usize,
    /// How the column is sorted.
    pub sort: Sort,
}

/// No column has two records in `sorts`.
pub open spec fn is_sort_list(sorts: Seq<SortRecord>) -> bool {
    forall|i: int, j: int|
        0 <= i < sorts.len() && 0 <= j < sorts.len() && i != j ==> sorts[i].column
            != sorts[j].column
}

/// Whether `column` has a record in `sorts`.
pub open spec fn is_sorted_by(sorts: Seq<SortRecord>, column: usize) -> bool {
    exists|i: int| 0 <= i < sorts.len() && sorts[i].column == column
}

/// The priority of `column` in `sorts`, if it has a record.
pub open spec fn priority_of(sorts: Seq<SortRecord>, column: usize) -> Option<int> {
    if is_sorted_by(sorts, column) {
        Some(choose|i: int| 0 <= i < sorts.len() && sorts[i].column == column)
    } else {
        None
    }
}

/// What a header shows of `column`: its priority and direction, if it has a
/// record.
pub open spec fn info_of(sorts: Seq<SortRecord>, column: usize) -> Option<SortInfo> {
    match priority_of(sorts, column) {
        Some(i) => Some(SortInfo { priority: i as usize, direction: sorts[i].sort.direction }),
        None => None,
    }
}

/// The list without the record of `column`; the others keep their order.
pub open spec fn cancelled(sorts: Seq<SortRecord>, column: usize) -> Seq<SortRecord> {
    match priority_of(sorts, column) {
        Some(i) => sorts.remove(i),
        None => sorts,
    }
}

/// The list in which `column` has become the primary sort.
pub open spec fn added_first(sorts: Seq<SortRecord>, column: usize, sort: Sort) -> Seq<SortRecord> {
    seq![SortRecord { column, sort }] + cancelled(sorts, column)
}

/// The list in which `column` has become the last sort.
pub open spec fn added_last(sorts: Seq<SortRecord>, column: usize, sort: Sort) -> Seq<SortRecord> {
    cancelled(sorts, column).push(SortRecord { column, sort })
}

/// The list in which the record of `column`, if there is one, has changed
/// direction in place.
pub open spec fn toggled(sorts: Seq<SortRecord>, column: usize) -> Seq<SortRecord> {
    match priority_of(sorts, column) {
        Some(i) => sorts.update(
            i,
            SortRecord { column, sort: Sort { direction: sorts[i].sort.direction.flipped() } },
        ),
        None => sorts,
    }
}

/// The list after a gesture on `column`.
pub open spec fn requested(sorts: Seq<SortRecord>, column: usize, gesture: SortGesture) -> Seq<
    SortRecord,
> {
    match gesture {
        SortGesture::Cancel => cancelled(sorts, column),
        SortGesture::AddFirst(sort) => added_first(sorts, column, sort),
        SortGesture::AddLast(sort) => added_last(sorts, column, sort),
        SortGesture::Toggle => toggled(sorts, column),
    }
}

/// In a sort list, a column has the priority at which its record is found.
pub proof fn lemma_priority_of(sorts: Seq<SortRecord>, i: int)
    requires
        is_sort_list(sorts),
        0 <= i < sorts.len(),
    ensures
        is_sorted_by(sorts, sorts[i].column),
        priority_of(sorts, sorts[i].column) == Some(i),
{
    assert(is_sorted_by(sorts, sorts[i].column));
}

/// `Cancel` removes at most one record: it gives a sort list in which the
/// column has no record, and in which every other record stands where it
/// stood, or one place earlier if it came after the removed one.
pub proof fn cancel_removes_one_record(sorts: Seq<SortRecord>, column: usize)
    requires
        is_sort_list(sorts),
    ensures
        is_sort_list(cancelled(sorts, column)),
        !is_sorted_by(cancelled(sorts, column), column),
        match priority_of(sorts, column) {
            Some(i) => {
                &&& 0 <= i < sorts.len()
                &&& sorts[i].column == column
                &&& cancelled(sorts, column).len() == sorts.len() - 1
                &&& forall|k: int|
                    0 <= k < i ==> #[trigger] cancelled(sorts, column)[k] == sorts[k]
                &&& forall|k: int|
                    i <= k < sorts.len() - 1 ==> #[trigger] cancelled(sorts, column)[k] == sorts[k
                        + 1]
            },
            None => cancelled(sorts, column) == sorts,
        },
{
    let out = cancelled(sorts, column);
    match priority_of(sorts, column) {
        Some(i) => {
            assert forall|a: int, b: int|
                0 <= a < out.len() && 0 <= b < out.len() && a != b implies out[a].column
                != out[b].column by {
                let pa = if a < i { a } else { a + 1 };
                let pb = if b < i { b } else { b + 1 };
                assert(out[a] == sorts[pa]);
                assert(out[b] == sorts[pb]);
            }
            if is_sorted_by(out, column) {
                let a = choose|a: int| 0 <= a < out.len() && out[a].column == column;
                let pa = if a < i { a } else { a + 1 };
                assert(out[a] == sorts[pa]);
                assert(false);
            }
        },
        None => {},
    }
}

/// Where a column with the priority `p` stands once the record at `q` has
/// been taken out: one place earlier if it came after `q`.
pub open spec fn closed_up(p: int, q: Option<int>) -> int {
    match q {
        Some(q) if q < p => p - 1,
        _ => p,
    }
}

/// `AddFirst` gives the column priority 0 and the requested direction.
/// Every other sorted column keeps its direction; it moves down by exactly
/// one priority, unless the column had a record before it, in which case it
/// stays where it is.
pub proof fn add_first_takes_priority_zero(
    sorts: Seq<SortRecord>,
    column: usize,
    sort: Sort,
    other: usize,
)
    requires
        is_sort_list(sorts),
        other != column,
    ensures
        is_sort_list(added_first(sorts, column, sort)),
        info_of(added_first(sorts, column, sort), column) == Some(
            SortInfo { priority: 0, direction: sort.direction },
        ),
        added_first(sorts, column, sort).len() == cancelled(sorts, column).len() + 1,
        match priority_of(sorts, other) {
            Some(p) => {
                let now = closed_up(p, priority_of(sorts, column)) + 1;
                &&& priority_of(added_first(sorts, column, sort), other) == Some(now)
                &&& added_first(sorts, column, sort)[now] == sorts[p]
            },
            None => !is_sorted_by(added_first(sorts, column, sort), other),
        },
{
    let rest = cancelled(sorts, column);
    let after = added_first(sorts, column, sort);
    cancel_removes_one_record(sorts, column);
    lemma_added(rest, SortRecord { column, sort });
    lemma_priority_of(after, 0);
    cancel_keeps_the_others(sorts, column, other);
    match priority_of(sorts, other) {
        Some(p) => {
            let now = closed_up(p, priority_of(sorts, column)) + 1;
            assert(after[now] == rest[now - 1]);
            lemma_priority_of(after, now);
        },
        None => {
            if is_sorted_by(after, other) {
                let a = choose|a: int| 0 <= a < after.len() && after[a].column == other;
                assert(after[a] == rest[a - 1]);
                assert(is_sorted_by(rest, other));
            }
        },
    }
}

/// `AddLast` gives the column the lowest priority and the requested
/// direction. Every other sorted column keeps its direction and its place
/// among the others.
pub proof fn add_last_takes_lowest_priority(
    sorts: Seq<SortRecord>,
    column: usize,
    sort: Sort,
    other: usize,
)
    requires
        is_sort_list(sorts),
        other != column,
    ensures
        is_sort_list(added_last(sorts, column, sort)),
        info_of(added_last(sorts, column, sort), column) == Some(
            SortInfo {
                priority: (added_last(sorts, column, sort).len() - 1) as usize,
                direction: sort.direction,
            },
        ),
        added_last(sorts, column, sort).len() == cancelled(sorts, column).len() + 1,
        match priority_of(sorts, other) {
            Some(p) => {
                let now = closed_up(p, priority_of(sorts, column));
                &&& priority_of(added_last(sorts, column, sort), other) == Some(now)
                &&& now < added_last(sorts, column, sort).len() - 1
                &&& added_last(sorts, column, sort)[now] == sorts[p]
            },
            None => !is_sorted_by(added_last(sorts, column, sort), other),
        },
{
    let rest = cancelled(sorts, column);
    let after = added_last(sorts, column, sort);
    cancel_removes_one_record(sorts, column);
    lemma_added(rest, SortRecord { column, sort });
    lemma_priority_of(after, after.len() - 1);
    cancel_keeps_the_others(sorts, column, other);
    match priority_of(sorts, other) {
        Some(p) => {
            let now = closed_up(p, priority_of(sorts, column));
            assert(after[now] == rest[now]);
            lemma_priority_of(after, now);
        },
        None => {
            if is_sorted_by(after, other) {
                let a = choose|a: int| 0 <= a < after.len() && after[a].column == other;
                assert(after[a] == rest[a]);
                assert(is_sorted_by(rest, other));
            }
        },
    }
}

/// `Toggle` on a column without a record changes nothing. On a sorted
/// column it flips the direction and leaves every priority, and every other
/// record, as it was.
pub proof fn toggle_flips_in_place(sorts: Seq<SortRecord>, column: usize)
    requires
        is_sort_list(sorts),
    ensures
        !is_sorted_by(sorts, column) ==> toggled(sorts, column) == sorts,
        toggled(sorts, column).len() == sorts.len(),
        is_sort_list(toggled(sorts, column)),
        forall|k: int|
            0 <= k < sorts.len() ==> (#[trigger] toggled(sorts, column)[k]).column
                == sorts[k].column,
        forall|k: int|
            0 <= k < sorts.len() ==> (#[trigger] toggled(sorts, column)[k]).sort.direction == (
            if sorts[k].column == column {
                sorts[k].sort.direction.flipped()
            } else {
                sorts[k].sort.direction
            }),
{
    let after = toggled(sorts, column);
    match priority_of(sorts, column) {
        Some(i) => {
            assert forall|k: int| 0 <= k < sorts.len() implies (#[trigger] after[k]).column
                == sorts[k].column && after[k].sort.direction == (if sorts[k].column == column {
                sorts[k].sort.direction.flipped()
            } else {
                sorts[k].sort.direction
            }) by {
                if k != i && sorts[k].column == column {
                    assert(false);
                }
            }
        },
        None => {
            assert forall|k: int| 0 <= k < sorts.len() implies sorts[k].column != column by {
                if sorts[k].column == column {
                    assert(is_sorted_by(sorts, column));
                }
            }
        },
    }
}

/// `Cancel` removes at most one record, that of the column, and every other
/// sorted column keeps its record and its place among the others.
pub proof fn cancel_keeps_the_others(sorts: Seq<SortRecord>, column: usize, other: usize)
    requires
        is_sort_list(sorts),
        other != column,
    ensures
        is_sort_list(cancelled(sorts, column)),
        !is_sorted_by(cancelled(sorts, column), column),
        cancelled(sorts, column).len() == if is_sorted_by(sorts, column) {
            sorts.len() - 1
        } else {
            sorts.len() as int
        },
        match priority_of(sorts, other) {
            Some(p) => {
                let now = closed_up(p, priority_of(sorts, column));
                &&& 0 <= p < sorts.len()
                &&& 0 <= now < cancelled(sorts, column).len()
                &&& priority_of(cancelled(sorts, column), other) == Some(now)
                &&& cancelled(sorts, column)[now] == sorts[p]
            },
            None => !is_sorted_by(cancelled(sorts, column), other),
        },
{
    let rest = cancelled(sorts, column);
    cancel_removes_one_record(sorts, column);
    match priority_of(sorts, other) {
        Some(p) => {
            let now = closed_up(p, priority_of(sorts, column));
            assert(0 <= p < sorts.len() && sorts[p].column == other);
            assert(rest[now] == sorts[p]);
            lemma_priority_of(rest, now);
        },
        None => {
            if is_sorted_by(rest, other) {
                let a = choose|a: int| 0 <= a < rest.len() && rest[a].column == other;
                match priority_of(sorts, column) {
                    Some(q) => {
                        let pa = if a < q { a } else { a + 1 };
                        assert(rest[a] == sorts[pa]);
                    },
                    None => {},
                }
                assert(false);
            }
        },
    }
}

/// The priority of `column` in `sorts`, searched from the front.
pub(crate) fn find_record(sorts: &Vec<SortRecord>, column: usize) -> (place: Option<usize>)
    requires
        is_sort_list(sorts@),
    ensures
        match place {
            Some(i) => priority_of(sorts@, column) == Some(i as int) && i < sorts@.len()
                && sorts@[i as int].column == column,
            None => priority_of(sorts@, column).is_none(),
        },
{
    let mut i: usize = 0;
    while i < sorts.len()
        invariant
            is_sort_list(sorts@),
            i <= sorts@.len(),
            forall|k: int| 0 <= k < i ==> sorts@[k].column != column,
        decreases sorts@.len() - i,
    {
        if sorts[i].column == column {
            proof {
                lemma_priority_of(sorts@, i as int);
            }
            return Some(i);
        }
        i += 1;
    }
    None
}

/// Drops the record of `column`, if there is one.
pub(crate) fn cancel(sorts: &mut Vec<SortRecord>, column: usize)
    requires
        is_sort_list(old(sorts)@),
    ensures
        final(sorts)@ == cancelled(old(sorts)@, column),
        is_sort_list(final(sorts)@),
        !is_sorted_by(final(sorts)@, column),
{
    proof {
        cancel_removes_one_record(sorts@, column);
    }
    match find_record(sorts, column) {
        Some(i) => {
            sorts.remove(i);
        },
        None => {},
    }
}

/// A record for a column without one, at either end, gives a sort list.
pub proof fn lemma_added(sorts: Seq<SortRecord>, record: SortRecord)
    requires
        is_sort_list(sorts),
        !is_sorted_by(sorts, record.column),
    ensures
        is_sort_list(seq![record] + sorts),
        is_sort_list(sorts.push(record)),
{
    let front = seq![record] + sorts;
    assert forall|a: int, b: int|
        0 <= a < front.len() && 0 <= b < front.len() && a != b implies front[a].column
        != front[b].column by {
        if a > 0 {
            assert(front[a] == sorts[a - 1]);
        }
        if b > 0 {
            assert(front[b] == sorts[b - 1]);
        }
    }
    let back = sorts.push(record);
    assert forall|a: int, b: int|
        0 <= a < back.len() && 0 <= b < back.len() && a != b implies back[a].column
        != back[b].column by {
        if a < sorts.len() {
            assert(back[a] == sorts[a]);
        }
        if b < sorts.len() {
            assert(back[b] == sorts[b]);
        }
    }
}

} // verus!
