//! Display order and visibility of the columns of one table.
//!
//! A column is known by its index in the declaration list, `0..total`.
//! The order lists the visible columns as they are displayed; an index that
//! is absent from it is hidden.

use vstd::prelude::*;

verus! {

/// The column that an index argument stands for: indices past the end fall
/// on the last column. With no columns at all the result is 0, which is not
/// a column.
pub open spec fn saturated(col: usize, total: usize) -> usize {
    if col < total {
        col
    } else if total == 0 {
        0
    } else {
        (total - 1) as usize
    }
}

/// `order` is a display order over the columns `0..total`: every entry is a
/// column and none occurs twice.
pub open spec fn is_order(order: Seq<usize>, total: usize) -> bool {
    &&& order.no_duplicates()
    &&& forall|i: int| 0 <= i < order.len() ==> #[trigger] order[i] < total
}

/// The identity order `0, 1, .., total - 1`.
pub open spec fn identity(total: usize) -> Seq<usize> {
    Seq::new(total as nat, |i: int| i as usize)
}

/// Where `col` stands in `order`, if it is visible.
pub open spec fn place_of(order: Seq<usize>, col: usize) -> Option<int> {
    if order.contains(col) {
        Some(order.index_of(col))
    } else {
        None
    }
}

/// `order` with the entries at `i` and `j` exchanged.
pub open spec fn exchanged(order: Seq<usize>, i: int, j: int) -> Seq<usize> {
    order.update(i, order[j]).update(j, order[i])
}

/// The order after swapping the places of two columns; unchanged unless both
/// are visible.
pub open spec fn swapped(order: Seq<usize>, total: usize, col_a: usize, col_b: usize) -> Seq<
    usize,
> {
    match (place_of(order, saturated(col_a, total)), place_of(order, saturated(col_b, total))) {
        (Some(i), Some(j)) => exchanged(order, i, j),
        _ => order,
    }
}

/// The order after hiding a column; unchanged if it is hidden already.
pub open spec fn hidden(order: Seq<usize>, total: usize, col: usize) -> Seq<usize> {
    match place_of(order, saturated(col, total)) {
        Some(i) => order.remove(i),
        None => order,
    }
}

/// The order after showing a column: unchanged if it is visible already or
/// if there are no columns; else the column enters at `at_index`, or at the
/// end where that is `None` or past the end.
pub open spec fn shown(order: Seq<usize>, total: usize, col: usize, at_index: Option<usize>) -> Seq<
    usize,
> {
    let c = saturated(col, total);
    if total == 0 || order.contains(c) {
        order
    } else {
        match at_index {
            Some(at) if at < order.len() => order.insert(at as int, c),
            _ => order.push(c),
        }
    }
}

/// The order after moving a visible column to the place `new_index`, counted
/// among the other visible columns; past the end means last. Unchanged if
/// the column is hidden.
pub open spec fn moved_to(order: Seq<usize>, total: usize, col: usize, new_index: usize) -> Seq<
    usize,
> {
    let c = saturated(col, total);
    match place_of(order, c) {
        Some(i) => {
            let rest = order.remove(i);
            if new_index < rest.len() {
                rest.insert(new_index as int, c)
            } else {
                rest.push(c)
            }
        },
        None => order,
    }
}

/// The order after moving a visible column one place towards the front;
/// unchanged if it is first or hidden.
pub open spec fn moved_forward(order: Seq<usize>, total: usize, col: usize) -> Seq<usize> {
    match place_of(order, saturated(col, total)) {
        Some(i) if i > 0 => exchanged(order, i, i - 1),
        _ => order,
    }
}

/// The order after moving a visible column one place towards the end;
/// unchanged if it is last or hidden.
pub open spec fn moved_backward(order: Seq<usize>, total: usize, col: usize) -> Seq<usize> {
    match place_of(order, saturated(col, total)) {
        Some(i) if i + 1 < order.len() => exchanged(order, i, i + 1),
        _ => order,
    }
}

/// In an order, a column stands at the place where it is found.
pub proof fn lemma_place_of(order: Seq<usize>, i: int)
    requires
        order.no_duplicates(),
        0 <= i < order.len(),
    ensures
        place_of(order, order[i]) == Some(i),
{
    assert(order.contains(order[i]));
}

/// Exchanging two entries of an order gives an order.
pub proof fn lemma_exchanged_is_order(order: Seq<usize>, total: usize, i: int, j: int)
    requires
        is_order(order, total),
        0 <= i < order.len(),
        0 <= j < order.len(),
    ensures
        is_order(exchanged(order, i, j), total),
        exchanged(order, i, j).len() == order.len(),
{
    let out = exchanged(order, i, j);
    assert forall|a: int, b: int| 0 <= a < out.len() && 0 <= b < out.len() && a != b implies out[a]
        != out[b] by {
        let pa = if a == i { j } else if a == j { i } else { a };
        let pb = if b == i { j } else if b == j { i } else { b };
        assert(out[a] == order[pa]);
        assert(out[b] == order[pb]);
        assert(pa != pb);
    }
    assert forall|a: int| 0 <= a < out.len() implies #[trigger] out[a] < total by {
        let pa = if a == i { j } else if a == j { i } else { a };
        assert(out[a] == order[pa]);
    }
}

/// Removing an entry of an order gives an order without that column.
pub proof fn lemma_remove_is_order(order: Seq<usize>, total: usize, i: int)
    requires
        is_order(order, total),
        0 <= i < order.len(),
    ensures
        is_order(order.remove(i), total),
        !order.remove(i).contains(order[i]),
        order.remove(i).len() == order.len() - 1,
{
    let out = order.remove(i);
    assert forall|a: int| 0 <= a < out.len() implies out[a] == order[if a < i {
        a
    } else {
        a + 1
    }] by {}
    assert forall|a: int, b: int| 0 <= a < out.len() && 0 <= b < out.len() && a != b implies out[a]
        != out[b] by {
        let pa = if a < i { a } else { a + 1 };
        let pb = if b < i { b } else { b + 1 };
        assert(out[a] == order[pa]);
        assert(out[b] == order[pb]);
    }
    assert forall|a: int| 0 <= a < out.len() implies #[trigger] out[a] < total by {
        let pa = if a < i { a } else { a + 1 };
        assert(out[a] == order[pa]);
    }
    if out.contains(order[i]) {
        let a = choose|a: int| 0 <= a < out.len() && out[a] == order[i];
        let pa = if a < i { a } else { a + 1 };
        assert(out[a] == order[pa]);
        assert(false);
    }
}

/// Inserting a hidden column into an order gives an order in which the
/// column stands at the place of insertion.
pub proof fn lemma_insert_is_order(order: Seq<usize>, total: usize, at: int, col: usize)
    requires
        is_order(order, total),
        0 <= at <= order.len(),
        col < total,
        !order.contains(col),
    ensures
        is_order(order.insert(at, col), total),
        order.insert(at, col).len() == order.len() + 1,
        place_of(order.insert(at, col), col) == Some(at),
{
    let out = order.insert(at, col);
    assert(out.len() == order.len() + 1);
    assert forall|a: int| 0 <= a < out.len() && a != at implies out[a] == order[if a < at {
        a
    } else {
        a - 1
    }] by {}
    assert(out[at] == col);
    assert forall|a: int, b: int| 0 <= a < out.len() && 0 <= b < out.len() && a != b implies out[a]
        != out[b] by {
        if a != at {
            let pa = if a < at { a } else { a - 1 };
            assert(out[a] == order[pa]);
            assert(order.contains(out[a]));
        }
        if b != at {
            let pb = if b < at { b } else { b - 1 };
            assert(out[b] == order[pb]);
            assert(order.contains(out[b]));
        }
    }
    assert forall|a: int| 0 <= a < out.len() implies #[trigger] out[a] < total by {
        if a != at {
            let pa = if a < at { a } else { a - 1 };
            assert(out[a] == order[pa]);
        }
    }
    lemma_place_of(out, at);
}

/// The identity order is an order, and every column stands at its own index.
pub proof fn lemma_identity_is_order(total: usize)
    ensures
        is_order(identity(total), total),
        identity(total).len() == total,
        forall|c: usize| c < total ==> place_of(identity(total), c) == Some(c as int),
{
    let id = identity(total);
    assert forall|c: usize| c < total implies place_of(id, c) == Some(c as int) by {
        assert(id[c as int] == c);
        lemma_place_of(id, c as int);
    }
}

/// Hiding a column and showing it again without a place puts it last, not
/// where it stood: the result is the order without the column, with the
/// column behind it.
pub proof fn hide_then_show_puts_last(order: Seq<usize>, total: usize, col: usize)
    requires
        is_order(order, total),
        total > 0,
    ensures
        shown(hidden(order, total, col), total, col, None) == hidden(order, total, col).push(
            saturated(col, total),
        ),
        !hidden(order, total, col).contains(saturated(col, total)),
        is_order(shown(hidden(order, total, col), total, col, None), total),
        shown(hidden(order, total, col), total, col, None).last() == saturated(col, total),
{
    let c = saturated(col, total);
    let rest = hidden(order, total, col);
    match place_of(order, c) {
        Some(i) => {
            lemma_remove_is_order(order, total, i);
        },
        None => {},
    }
    lemma_insert_is_order(rest, total, rest.len() as int, c);
    assert(rest.insert(rest.len() as int, c) =~= rest.push(c));
}

/// Swapping changes nothing if either column is hidden.
pub proof fn swap_with_hidden_changes_nothing(
    order: Seq<usize>,
    total: usize,
    col_a: usize,
    col_b: usize,
)
    requires
        !order.contains(saturated(col_a, total)) || !order.contains(saturated(col_b, total)),
    ensures
        swapped(order, total, col_a, col_b) == order,
{
}

/// Moving the first visible column forward, or the last one backward,
/// changes nothing.
pub proof fn move_at_the_edge_changes_nothing(order: Seq<usize>, total: usize, col: usize)
    requires
        is_order(order, total),
        order.len() > 0,
    ensures
        order[0] == saturated(col, total) ==> moved_forward(order, total, col) == order,
        order.last() == saturated(col, total) ==> moved_backward(order, total, col) == order,
{
    lemma_place_of(order, 0);
    lemma_place_of(order, order.len() - 1);
}

/// Every change of the display order gives an order over the same columns.
pub proof fn changes_keep_the_order_valid(
    order: Seq<usize>,
    total: usize,
    col: usize,
    other: usize,
    at_index: Option<usize>,
)
    requires
        is_order(order, total),
    ensures
        is_order(swapped(order, total, col, other), total),
        is_order(hidden(order, total, col), total),
        is_order(shown(order, total, col, at_index), total),
        is_order(moved_to(order, total, col, other), total),
        is_order(moved_forward(order, total, col), total),
        is_order(moved_backward(order, total, col), total),
        is_order(identity(total), total),
{
    let c = saturated(col, total);
    lemma_identity_is_order(total);
    match place_of(order, c) {
        Some(i) => {
            lemma_remove_is_order(order, total, i);
            let rest = order.remove(i);
            if other < rest.len() {
                lemma_insert_is_order(rest, total, other as int, c);
            } else {
                lemma_insert_is_order(rest, total, rest.len() as int, c);
                assert(rest.insert(rest.len() as int, c) =~= rest.push(c));
            }
            if i > 0 {
                lemma_exchanged_is_order(order, total, i, i - 1);
            }
            if i + 1 < order.len() {
                lemma_exchanged_is_order(order, total, i, i + 1);
            }
            match place_of(order, saturated(other, total)) {
                Some(j) => {
                    lemma_exchanged_is_order(order, total, i, j);
                },
                None => {},
            }
        },
        None => {
            if total > 0 {
                match at_index {
                    Some(at) => {
                        if at < order.len() {
                            lemma_insert_is_order(order, total, at as int, c);
                        }
                    },
                    None => {},
                }
                lemma_insert_is_order(order, total, order.len() as int, c);
                assert(order.insert(order.len() as int, c) =~= order.push(c));
            }
        },
    }
}

/// The place of `col` in `order`, searched from the front.
fn find_place(order: &Vec<usize>, col: usize) -> (place: Option<usize>)
    requires
        order@.no_duplicates(),
    ensures
        match place {
            Some(i) => place_of(order@, col) == Some(i as int) && i < order@.len() && order@[i as int]
                == col,
            None => place_of(order@, col).is_none() && !order@.contains(col),
        },
{
    let mut i: usize = 0;
    while i < order.len()
        invariant
            order@.no_duplicates(),
            i <= order@.len(),
            forall|k: int| 0 <= k < i ==> order@[k] != col,
        decreases order@.len() - i,
    {
        if order[i] == col {
            proof {
                lemma_place_of(order@, i as int);
            }
            return Some(i);
        }
        i += 1;
    }
    None
}

/// The identity order over `total` columns.
fn identity_order(total: usize) -> (order: Vec<usize>)
    ensures
        order@ == identity(total),
{
    let mut order: Vec<usize> = Vec::new();
    let mut i: usize = 0;
    while i < total
        invariant
            i <= total,
            order@.len() == i,
            forall|k: int| 0 <= k < i ==> order@[k] == k as usize,
        decreases total - i,
    {
        order.push(i);
        i += 1;
    }
    assert(order@ =~= identity(total));
    order
}

/// Exchanges the entries at `i` and `j`.
fn exchange(order: &mut Vec<usize>, i: usize, j: usize)
    requires
        i < old(order)@.len(),
        j < old(order)@.len(),
    ensures
        final(order)@ == exchanged(old(order)@, i as int, j as int),
{
    let a = order[i];
    let b = order[j];
    order.set(i, b);
    order.set(j, a);
}

/// The index argument `col` brought into `0..total` (0 where there is no
/// column).
fn saturate(col: usize, total: usize) -> (c: usize)
    ensures
        c == saturated(col, total),
{
    if col < total {
        col
    } else if total == 0 {
        0
    } else {
        total - 1
    }
}

/// Manages the order and visibility of the columns of a table.
#[derive(Clone, PartialEq, Debug)]
pub struct ColumnOrder {
    /// The visible columns, in display order.
    order: Vec<usize>,
    /// How many columns the table has.
    total_columns: usize,
}

impl View for ColumnOrder {
    type V = Seq<usize>;

    /// The visible columns, in display order.
    closed spec fn view(&self) -> Seq<usize> {
        self.order@
    }
}

impl ColumnOrder {
    /// How many columns the table has.
    pub closed spec fn total(&self) -> usize {
        self.total_columns
    }

    /// The value holds an order over its columns. Every value that `new`
    /// returns does, and every method keeps it so.
    pub open spec fn wf(&self) -> bool {
        is_order(self@, self.total())
    }

    /// All columns visible, in declaration order.
    pub fn new(total_columns: usize) -> (result: Self)
        ensures
            result@ == identity(total_columns),
            result.total() == total_columns,
            result.wf(),
    {
        proof {
            lemma_identity_is_order(total_columns);
        }
        Self { order: identity_order(total_columns), total_columns }
    }

    /// The visible columns, in display order.
    pub fn get_order(&self) -> (order: &[usize])
        ensures
            order@ == self@,
    {
        self.order.as_slice()
    }

    /// How many columns the table has, hidden ones included.
    pub fn total_columns(&self) -> (total: usize)
        ensures
            total == self.total(),
    {
        self.total_columns
    }

    /// Swaps the places of two columns. Nothing happens unless both are
    /// visible.
    pub fn swap(&mut self, col_a: usize, col_b: usize)
        requires
            old(self).wf(),
        ensures
            final(self)@ == swapped(old(self)@, old(self).total(), col_a, col_b),
            final(self).total() == old(self).total(),
            final(self).wf(),
    {
        let a = saturate(col_a, self.total_columns);
        let b = saturate(col_b, self.total_columns);
        let place_a = find_place(&self.order, a);
        let place_b = find_place(&self.order, b);
        match (place_a, place_b) {
            (Some(i), Some(j)) => {
                proof {
                    lemma_exchanged_is_order(self.order@, self.total_columns, i as int, j as int);
                }
                exchange(&mut self.order, i, j);
            },
            _ => {},
        }
    }

    /// Hides a column. Nothing happens if it is hidden already.
    pub fn hide_column(&mut self, col: usize)
        requires
            old(self).wf(),
        ensures
            final(self)@ == hidden(old(self)@, old(self).total(), col),
            final(self).total() == old(self).total(),
            final(self).wf(),
    {
        let c = saturate(col, self.total_columns);
        match find_place(&self.order, c) {
            Some(i) => {
                proof {
                    lemma_remove_is_order(self.order@, self.total_columns, i as int);
                }
                self.order.remove(i);
            },
            None => {},
        }
    }

    /// Shows a hidden column at `at_index`, or at the end where that is
    /// `None` or past the end. Nothing happens if the column is visible.
    pub fn show_column(&mut self, col: usize, at_index: Option<usize>)
        requires
            old(self).wf(),
        ensures
            final(self)@ == shown(old(self)@, old(self).total(), col, at_index),
            final(self).total() == old(self).total(),
            final(self).wf(),
    {
        let c = saturate(col, self.total_columns);
        if self.total_columns == 0 || find_place(&self.order, c).is_some() {
            return ;
        }
        let len = self.order.len();
        let at = match at_index {
            Some(at) if at < len => at,
            _ => len,
        };
        proof {
            lemma_insert_is_order(self.order@, self.total_columns, at as int, c);
            assert(self.order@.insert(len as int, c) =~= self.order@.push(c));
        }
        self.order.insert(at, c);
    }

    /// Moves a visible column to the place `new_index`; past the end means
    /// last. Nothing happens if the column is hidden.
    pub fn move_to(&mut self, col: usize, new_index: usize)
        requires
            old(self).wf(),
        ensures
            final(self)@ == moved_to(old(self)@, old(self).total(), col, new_index),
            final(self).total() == old(self).total(),
            final(self).wf(),
    {
        let c = saturate(col, self.total_columns);
        match find_place(&self.order, c) {
            Some(i) => {
                proof {
                    lemma_remove_is_order(self.order@, self.total_columns, i as int);
                }
                self.order.remove(i);
                let len = self.order.len();
                let at = if new_index < len {
                    new_index
                } else {
                    len
                };
                proof {
                    lemma_insert_is_order(self.order@, self.total_columns, at as int, c);
                    assert(self.order@.insert(len as int, c) =~= self.order@.push(c));
                }
                self.order.insert(at, c);
            },
            None => {},
        }
    }

    /// Moves a visible column one place towards the front. Nothing happens
    /// if it is first or hidden.
    pub fn move_forward(&mut self, col: usize)
        requires
            old(self).wf(),
        ensures
            final(self)@ == moved_forward(old(self)@, old(self).total(), col),
            final(self).total() == old(self).total(),
            final(self).wf(),
    {
        let c = saturate(col, self.total_columns);
        if let Some(i) = find_place(&self.order, c) {
            if i > 0 {
                proof {
                    lemma_exchanged_is_order(self.order@, self.total_columns, i as int, i - 1);
                }
                exchange(&mut self.order, i, i - 1);
            }
        }
    }

    /// Moves a visible column one place towards the end. Nothing happens if
    /// it is last or hidden.
    pub fn move_backward(&mut self, col: usize)
        requires
            old(self).wf(),
        ensures
            final(self)@ == moved_backward(old(self)@, old(self).total(), col),
            final(self).total() == old(self).total(),
            final(self).wf(),
    {
        let c = saturate(col, self.total_columns);
        if let Some(i) = find_place(&self.order, c) {
            if i < self.order.len() - 1 {
                proof {
                    lemma_exchanged_is_order(self.order@, self.total_columns, i as int, i + 1);
                }
                exchange(&mut self.order, i, i + 1);
            }
        }
    }

    /// Whether a column is visible.
    pub fn is_visible(&self, col: usize) -> (visible: bool)
        requires
            self.wf(),
        ensures
            visible == self@.contains(saturated(col, self.total())),
    {
        let c = saturate(col, self.total_columns);
        find_place(&self.order, c).is_some()
    }

    /// The display position of a column, or `None` if it is hidden.
    pub fn position(&self, col: usize) -> (place: Option<usize>)
        requires
            self.wf(),
        ensures
            match place {
                Some(i) => place_of(self@, saturated(col, self.total())) == Some(i as int),
                None => place_of(self@, saturated(col, self.total())).is_none(),
            },
    {
        let c = saturate(col, self.total_columns);
        find_place(&self.order, c)
    }

    /// Back to all columns visible, in declaration order.
    pub fn reset(&mut self)
        requires
            old(self).wf(),
        ensures
            final(self)@ == identity(old(self).total()),
            final(self).total() == old(self).total(),
            final(self).wf(),
    {
        proof {
            lemma_identity_is_order(self.total_columns);
        }
        self.order = identity_order(self.total_columns);
    }
}

} // verus!
