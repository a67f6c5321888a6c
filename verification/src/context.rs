//! The state of one table: its sort records, its column names and its
//! column order, with the handles through which a single column, header,
//! row or cell reaches it.

use crate::column_order::{
    hidden, identity, is_order, moved_backward, moved_forward, moved_to, place_of, saturated,
    shown, swapped, ColumnOrder,
};
use crate::columns::Columns;
use crate::projection::{project_rows, projection, sorts_fit};
use crate::row::Row;
use crate::sort::{
    cancel, find_record, info_of, is_sort_list, lemma_added, requested, Sort, SortGesture,
    SortInfo, SortRecord,
};
use vstd::prelude::*;

verus! {

/// No two of the names are the same.
pub open spec fn names_differ(names: Seq<String>) -> bool {
    forall|a: int, b: int| 0 <= a < b < names.len() ==> names[a]@ != names[b]@
}

/// The state that all columns of a table share.
#[derive(Clone, PartialEq, Debug)]
pub struct TableContextData {
    /// The active sort, highest priority first.
    sorts: Vec<SortRecord>,
    /// The names of the columns, by column index.
    column_names: Vec<String>,
    /// The order and visibility of the columns.
    column_order: ColumnOrder,
}

impl TableContextData {
    /// The active sort, highest priority first.
    pub closed spec fn sorts(&self) -> Seq<SortRecord> {
        self.sorts@
    }

    /// The names of the columns, by column index.
    pub closed spec fn names(&self) -> Seq<String> {
        self.column_names@
    }

    /// The visible columns, in display order.
    pub closed spec fn order(&self) -> Seq<usize> {
        self.column_order@
    }

    /// How many columns the table has.
    pub closed spec fn total(&self) -> usize {
        self.column_order.total()
    }

    /// No column is sorted twice, the column order is an order over the
    /// table's columns, and every column has a name. Every value that `new`
    /// returns is so, and every method keeps it so.
    pub open spec fn wf(&self) -> bool {
        &&& is_sort_list(self.sorts())
        &&& is_order(self.order(), self.total())
        &&& self.names().len() == self.total()
    }

    /// This state is `before` with the display order `order`.
    pub open spec fn reordered(&self, before: TableContextData, order: Seq<usize>) -> bool {
        &&& self.order() == order
        &&& self.sorts() == before.sorts()
        &&& self.names() == before.names()
        &&& self.total() == before.total()
        &&& self.wf()
    }

    /// The state of a new table with the given column names: nothing
    /// sorted, every column visible, in declaration order.
    pub fn new(column_names: Vec<String>) -> (data: Self)
        ensures
            data.wf(),
            data.sorts() == Seq::<SortRecord>::empty(),
            data.names() == column_names@,
            data.order() == identity(column_names@.len() as usize),
            data.total() == column_names@.len(),
    {
        let column_order = ColumnOrder::new(column_names.len());
        Self { sorts: Vec::new(), column_names, column_order }
    }

    /// The handle through which the column at `column` reaches this state.
    pub fn column_context(&mut self, column: usize) -> (context: ColumnContext<'_>)
        ensures
            context.table() == *old(self),
            *final(context.table_context) == *final(self),
            context.column == column,
    {
        ColumnContext { table_context: self, column }
    }

    /// Whether no two columns have the same name, as a table needs it.
    pub fn has_unique_names(&self) -> (unique: bool)
        ensures
            unique == names_differ(self.names()),
    {
        let mut j: usize = 0;
        while j < self.column_names.len()
            invariant
                j <= self.column_names@.len(),
                forall|a: int, b: int|
                    0 <= a < b < j ==> self.column_names@[a]@ != self.column_names@[b]@,
            decreases self.column_names@.len() - j,
        {
            let mut i: usize = 0;
            while i < j
                invariant
                    j < self.column_names@.len(),
                    i <= j,
                    forall|a: int| 0 <= a < i ==> self.column_names@[a]@ != self.column_names@[j as int]@,
                decreases j - i,
            {
                if self.column_names[i] == self.column_names[j] {
                    return false;
                }
                i += 1;
            }
            j += 1;
        }
        true
    }

    /// How many columns the table has, hidden ones included.
    pub fn total_columns(&self) -> (total: usize)
        ensures
            total == self.total(),
    {
        self.column_order.total_columns()
    }

    /// Whether every sort record names one of the first `width` columns.
    pub fn sorts_within(&self, width: usize) -> (fit: bool)
        ensures
            fit == (forall|k: int|
                0 <= k < self.sorts().len() ==> (#[trigger] self.sorts()[k]).column < width),
    {
        let mut i: usize = 0;
        while i < self.sorts.len()
            invariant
                i <= self.sorts@.len(),
                forall|k: int| 0 <= k < i ==> (#[trigger] self.sorts@[k]).column < width,
            decreases self.sorts@.len() - i,
        {
            if self.sorts[i].column >= width {
                assert(!(self.sorts@[i as int].column < width));
                return false;
            }
            i += 1;
        }
        true
    }

    /// The active sort, highest priority first.
    pub fn sort_records(&self) -> (records: &Vec<SortRecord>)
        ensures
            records@ == self.sorts(),
    {
        &self.sorts
    }

    /// The visible columns, in display order.
    pub fn get_column_order(&self) -> (order: Vec<usize>)
        ensures
            order@ == self.order(),
    {
        vstd::slice::slice_to_vec(self.column_order.get_order())
    }

    /// The name of the column at `index`.
    pub fn get_column_name(&self, index: usize) -> (name: String)
        requires
            index < self.names().len(),
        ensures
            name == self.names()[index as int],
    {
        self.column_names[index].clone()
    }

    /// Applies a sort gesture to the column at `column`.
    ///
    /// `Cancel` drops the column's record. `AddFirst` and `AddLast` drop it
    /// and put a new one at the front or at the end. `Toggle` flips the
    /// direction of the record where it stands, and creates none.
    pub fn request_sort(&mut self, column: usize, sort: SortGesture)
        requires
            old(self).wf(),
        ensures
            final(self).sorts() == requested(old(self).sorts(), column, sort),
            final(self).names() == old(self).names(),
            final(self).order() == old(self).order(),
            final(self).total() == old(self).total(),
            final(self).wf(),
    {
        match sort {
            SortGesture::Cancel => {
                cancel(&mut self.sorts, column);
            },
            SortGesture::AddFirst(sort) => {
                cancel(&mut self.sorts, column);
                proof {
                    lemma_added(self.sorts@, SortRecord { column, sort });
                    assert(self.sorts@.insert(0, SortRecord { column, sort }) =~= seq![
                        SortRecord { column, sort },
                    ] + self.sorts@);
                }
                self.sorts.insert(0, SortRecord { column, sort });
            },
            SortGesture::AddLast(sort) => {
                cancel(&mut self.sorts, column);
                proof {
                    lemma_added(self.sorts@, SortRecord { column, sort });
                }
                self.sorts.push(SortRecord { column, sort });
            },
            SortGesture::Toggle => {
                match find_record(&self.sorts, column) {
                    Some(i) => {
                        let direction = self.sorts[i].sort.direction.flip();
                        let ghost before = self.sorts@;
                        self.sorts.set(i, SortRecord { column, sort: Sort { direction } });
                        proof {
                            assert forall|a: int, b: int|
                                0 <= a < self.sorts@.len() && 0 <= b < self.sorts@.len() && a
                                    != b implies self.sorts@[a].column != self.sorts@[b].column by {
                                assert(self.sorts@[a].column == before[a].column);
                                assert(self.sorts@[b].column == before[b].column);
                            }
                        }
                    },
                    None => {},
                }
            },
        }
    }

    /// The sort state of the column at `column`: its priority and
    /// direction, or `None` if the column is not sorted.
    pub fn sort_info(&self, column: usize) -> (info: Option<SortInfo>)
        requires
            self.wf(),
        ensures
            info == info_of(self.sorts(), column),
    {
        match find_record(&self.sorts, column) {
            Some(i) => Some(SortInfo { priority: i, direction: self.sorts[i].sort.direction }),
            None => None,
        }
    }

    /// Swaps the places of two columns. Nothing happens unless both are
    /// visible.
    pub fn swap_columns(&mut self, col_a: usize, col_b: usize)
        requires
            old(self).wf(),
        ensures
            final(self).order() == swapped(old(self).order(), old(self).total(), col_a, col_b),
            final(self).sorts() == old(self).sorts(),
            final(self).names() == old(self).names(),
            final(self).total() == old(self).total(),
            final(self).wf(),
    {
        self.column_order.swap(col_a, col_b);
    }

    /// Hides a column. Nothing happens if it is hidden already.
    pub fn hide_column(&mut self, col: usize)
        requires
            old(self).wf(),
        ensures
            final(self).order() == hidden(old(self).order(), old(self).total(), col),
            final(self).sorts() == old(self).sorts(),
            final(self).names() == old(self).names(),
            final(self).total() == old(self).total(),
            final(self).wf(),
    {
        self.column_order.hide_column(col);
    }

    /// Shows a hidden column at `at_index`, or at the end where that is
    /// `None` or past the end. Nothing happens if the column is visible.
    pub fn show_column(&mut self, col: usize, at_index: Option<usize>)
        requires
            old(self).wf(),
        ensures
            final(self).order() == shown(old(self).order(), old(self).total(), col, at_index),
            final(self).sorts() == old(self).sorts(),
            final(self).names() == old(self).names(),
            final(self).total() == old(self).total(),
            final(self).wf(),
    {
        self.column_order.show_column(col, at_index);
    }

    /// Moves a visible column to the place `new_index`; past the end means
    /// last. Nothing happens if the column is hidden.
    pub fn move_column_to(&mut self, col: usize, new_index: usize)
        requires
            old(self).wf(),
        ensures
            final(self).order() == moved_to(old(self).order(), old(self).total(), col, new_index),
            final(self).sorts() == old(self).sorts(),
            final(self).names() == old(self).names(),
            final(self).total() == old(self).total(),
            final(self).wf(),
    {
        self.column_order.move_to(col, new_index);
    }

    /// Moves a visible column one place towards the front. Nothing happens
    /// if it is first or hidden.
    pub fn move_column_forward(&mut self, col: usize)
        requires
            old(self).wf(),
        ensures
            final(self).order() == moved_forward(old(self).order(), old(self).total(), col),
            final(self).sorts() == old(self).sorts(),
            final(self).names() == old(self).names(),
            final(self).total() == old(self).total(),
            final(self).wf(),
    {
        self.column_order.move_forward(col);
    }

    /// Moves a visible column one place towards the end. Nothing happens if
    /// it is last or hidden.
    pub fn move_column_backward(&mut self, col: usize)
        requires
            old(self).wf(),
        ensures
            final(self).order() == moved_backward(old(self).order(), old(self).total(), col),
            final(self).sorts() == old(self).sorts(),
            final(self).names() == old(self).names(),
            final(self).total() == old(self).total(),
            final(self).wf(),
    {
        self.column_order.move_backward(col);
    }

    /// Whether a column is visible.
    pub fn is_column_visible(&self, col: usize) -> (visible: bool)
        requires
            self.wf(),
        ensures
            visible == self.order().contains(saturated(col, self.total())),
    {
        self.column_order.is_visible(col)
    }

    /// The display position of a column, or `None` if it is hidden.
    pub fn column_position(&self, col: usize) -> (place: Option<usize>)
        requires
            self.wf(),
        ensures
            match place {
                Some(i) => place_of(self.order(), saturated(col, self.total())) == Some(i as int),
                None => place_of(self.order(), saturated(col, self.total())).is_none(),
            },
    {
        self.column_order.position(col)
    }

    /// Back to all columns visible, in declaration order.
    pub fn reset_column_order(&mut self)
        requires
            old(self).wf(),
        ensures
            final(self).order() == identity(old(self).total()),
            final(self).sorts() == old(self).sorts(),
            final(self).names() == old(self).names(),
            final(self).total() == old(self).total(),
            final(self).wf(),
    {
        self.column_order.reset();
    }
}

/// The handle of one column on the state of its table: the column's sort
/// state, and the order and visibility controls.
pub struct ColumnContext<'a> {
    /// The state of the table.
    pub table_context: &'a mut TableContextData,
    /// The index of the column in the declaration list.
    pub column: usize,
}

impl<'a> ColumnContext<'a> {
    /// The state of the table as the handle sees it now.
    pub open spec fn table(&self) -> TableContextData {
        *self.table_context
    }

    /// Applies a sort gesture to this column.
    pub fn request_sort(&mut self, sort: SortGesture)
        requires
            old(self).table().wf(),
        ensures
            final(self).table().sorts() == requested(
                old(self).table().sorts(),
                old(self).column,
                sort,
            ),
            final(self).table().names() == old(self).table().names(),
            final(self).table().order() == old(self).table().order(),
            final(self).table().total() == old(self).table().total(),
            final(self).table().wf(),
            final(self).column == old(self).column,
            *final(final(self).table_context) == *final(old(self).table_context),
    {
        self.table_context.request_sort(self.column, sort);
    }

    /// The sort state of this column, or `None` if it is not sorted.
    pub fn sort_info(&self) -> (info: Option<SortInfo>)
        requires
            self.table().wf(),
        ensures
            info == info_of(self.table().sorts(), self.column),
    {
        self.table_context.sort_info(self.column)
    }

    /// Swaps the places of this column and another. Nothing happens unless
    /// both are visible.
    pub fn swap_with(&mut self, other_col: usize)
        requires
            old(self).table().wf(),
        ensures
            final(self).table().reordered(
                old(self).table(),
                swapped(
                    old(self).table().order(),
                    old(self).table().total(),
                    old(self).column,
                    other_col,
                ),
            ),
            final(self).column == old(self).column,
            *final(final(self).table_context) == *final(old(self).table_context),
    {
        self.table_context.swap_columns(self.column, other_col);
    }

    /// Hides this column.
    pub fn hide_column(&mut self)
        requires
            old(self).table().wf(),
        ensures
            final(self).table().reordered(
                old(self).table(),
                hidden(old(self).table().order(), old(self).table().total(), old(self).column),
            ),
            final(self).column == old(self).column,
            *final(final(self).table_context) == *final(old(self).table_context),
    {
        self.table_context.hide_column(self.column);
    }

    /// Shows this column at `at_index`, or at the end where that is `None`
    /// or past the end. Nothing happens if the column is visible.
    pub fn show(&mut self, at_index: Option<usize>)
        requires
            old(self).table().wf(),
        ensures
            final(self).table().reordered(
                old(self).table(),
                shown(
                    old(self).table().order(),
                    old(self).table().total(),
                    old(self).column,
                    at_index,
                ),
            ),
            final(self).column == old(self).column,
            *final(final(self).table_context) == *final(old(self).table_context),
    {
        self.table_context.show_column(self.column, at_index);
    }

    /// Moves this column to the display position `new_index`; past the end
    /// means last. Nothing happens if the column is hidden.
    pub fn move_to(&mut self, new_index: usize)
        requires
            old(self).table().wf(),
        ensures
            final(self).table().reordered(
                old(self).table(),
                moved_to(
                    old(self).table().order(),
                    old(self).table().total(),
                    old(self).column,
                    new_index,
                ),
            ),
            final(self).column == old(self).column,
            *final(final(self).table_context) == *final(old(self).table_context),
    {
        self.table_context.move_column_to(self.column, new_index);
    }

    /// Moves this column one position forward (towards index 0).
    pub fn move_forward(&mut self)
        requires
            old(self).table().wf(),
        ensures
            final(self).table().reordered(
                old(self).table(),
                moved_forward(
                    old(self).table().order(),
                    old(self).table().total(),
                    old(self).column,
                ),
            ),
            final(self).column == old(self).column,
            *final(final(self).table_context) == *final(old(self).table_context),
    {
        self.table_context.move_column_forward(self.column);
    }

    /// Moves this column one position backward (towards the end).
    pub fn move_backward(&mut self)
        requires
            old(self).table().wf(),
        ensures
            final(self).table().reordered(
                old(self).table(),
                moved_backward(
                    old(self).table().order(),
                    old(self).table().total(),
                    old(self).column,
                ),
            ),
            final(self).column == old(self).column,
            *final(final(self).table_context) == *final(old(self).table_context),
    {
        self.table_context.move_column_backward(self.column);
    }

    /// Whether this column is visible.
    pub fn is_visible(&self) -> (visible: bool)
        requires
            self.table().wf(),
        ensures
            visible == self.table().order().contains(
                saturated(self.column, self.table().total()),
            ),
    {
        self.table_context.is_column_visible(self.column)
    }

    /// The display position of this column, or `None` if it is hidden.
    pub fn position(&self) -> (place: Option<usize>)
        requires
            self.table().wf(),
        ensures
            match place {
                Some(i) => place_of(
                    self.table().order(),
                    saturated(self.column, self.table().total()),
                ) == Some(i as int),
                None => place_of(
                    self.table().order(),
                    saturated(self.column, self.table().total()),
                ).is_none(),
            },
    {
        self.table_context.column_position(self.column)
    }

    /// Resets all columns to default visibility and order.
    pub fn reset_order(&mut self)
        requires
            old(self).table().wf(),
        ensures
            final(self).table().reordered(
                old(self).table(),
                identity(old(self).table().total()),
            ),
            final(self).column == old(self).column,
            *final(final(self).table_context) == *final(old(self).table_context),
    {
        self.table_context.reset_column_order();
    }
}

/// The state of one table together with its columns.
pub struct TableContext<C> {
    /// The state that the columns share.
    pub data: TableContextData,
    /// The columns, in declaration order.
    pub columns: C,
}

impl<C> TableContext<C> {
    /// The state is well formed and has one column name for every column.
    pub open spec fn wf<R: Row>(&self) -> bool where C: Columns<R> {
        &&& self.data.wf()
        &&& self.data.total() == self.columns.width()
    }

    /// The context of a new table over `columns`: nothing sorted, every
    /// column visible, in declaration order.
    pub fn use_table_context<R>(columns: C) -> (context: Self) where C: Columns<R>, R: Row
        ensures
            context.wf::<R>(),
            context.columns == columns,
            context.data.sorts() == Seq::<SortRecord>::empty(),
            context.data.order() == identity(context.data.total()),
            forall|column: int|
                0 <= column < columns.width() ==> (#[trigger] context.data.names()[column])@
                    == columns.name(column),
    {
        let column_names = columns.column_names();
        let data = TableContextData::new(column_names);
        Self { data, columns }
    }

    /// The table over `rows`.
    pub fn table_data<R>(self, rows: Vec<R>) -> (table: TableData<C, R>) where
        C: Columns<R>,
        R: Row,

        ensures
            table.context == self,
            table.rows == rows,
    {
        TableData { context: self, rows }
    }

    /// Whether every sort record names a column of the table, so that the
    /// rows can be projected.
    pub fn sorts_fit_columns<R>(&self) -> (fit: bool) where C: Columns<R>, R: Row
        requires
            self.wf::<R>(),
        ensures
            fit == sorts_fit(&self.columns, self.data.sorts()),
    {
        self.data.sorts_within(self.data.total_columns())
    }

    /// The headers of the visible columns, in display order.
    pub fn headers(&self) -> (headers: Vec<HeaderData<'_, C>>)
        ensures
            headers@.len() == self.data.order().len(),
            forall|k: int|
                0 <= k < headers@.len() ==> (#[trigger] headers@[k]).column_index
                    == self.data.order()[k] && headers@[k].context == self,
    {
        let order = self.data.get_column_order();
        let mut headers: Vec<HeaderData<'_, C>> = Vec::new();
        let mut k: usize = 0;
        while k < order.len()
            invariant
                order@ == self.data.order(),
                k <= order@.len(),
                headers@.len() == k,
                forall|i: int|
                    0 <= i < k ==> (#[trigger] headers@[i]).column_index == order@[i]
                        && headers@[i].context == self,
            decreases order@.len() - k,
        {
            headers.push(HeaderData { context: self, column_index: order[k] });
            k += 1;
        }
        headers
    }

    /// The cells of `row` in the visible columns, in display order.
    pub fn cells<'a, R>(&self, row: RowData<'a, C, R>) -> (cells: Vec<CellData<'a, C, R>>) where
        C: Columns<R>,
        R: Row,

        ensures
            cells@.len() == self.data.order().len(),
            forall|k: int|
                0 <= k < cells@.len() ==> (#[trigger] cells@[k]).column_index
                    == self.data.order()[k] && cells@[k].row == row,
    {
        let order = self.data.get_column_order();
        let mut cells: Vec<CellData<'a, C, R>> = Vec::new();
        let mut k: usize = 0;
        while k < order.len()
            invariant
                order@ == self.data.order(),
                k <= order@.len(),
                cells@.len() == k,
                forall|i: int|
                    0 <= i < k ==> (#[trigger] cells@[i]).column_index == order@[i]
                        && cells@[i].row == row,
            decreases order@.len() - k,
        {
            cells.push(CellData { row, column_index: order[k] });
            k += 1;
        }
        cells
    }

    /// The row projection: the rows that pass every column's filter, in
    /// their original order, then stably sorted by the sort records if
    /// there are any. Hidden columns filter and sort like visible ones.
    pub fn rows<'a, R>(&'a self, rows: &'a Vec<R>) -> (shown: Vec<RowData<'a, C, R>>) where
        C: Columns<R>,
        R: Row,

        requires
            sorts_fit(&self.columns, self.data.sorts()),
        ensures
            row_indices(shown@) == projection(&self.columns, self.data.sorts(), rows@),
            forall|k: int|
                0 <= k < shown@.len() ==> (#[trigger] shown@[k]).context == self && shown@[k].rows
                    == rows,
    {
        let indices = project_rows(&self.columns, self.data.sort_records(), rows);
        let mut shown: Vec<RowData<'a, C, R>> = Vec::new();
        let mut k: usize = 0;
        while k < indices.len()
            invariant
                k <= indices@.len(),
                shown@.len() == k,
                forall|i: int|
                    0 <= i < k ==> (#[trigger] shown@[i]).index == indices@[i] && shown@[i].context
                        == self && shown@[i].rows == rows,
            decreases indices@.len() - k,
        {
            shown.push(RowData { context: self, rows, index: indices[k] });
            k += 1;
        }
        assert(row_indices(shown@) =~= indices@);
        shown
    }
}

/// Visibility is a matter of display only: two tables with the same
/// columns and the same sort records project the same rows in the same
/// order, however their columns are ordered, shown or hidden. So a hidden
/// column filters and sorts like a visible one.
pub proof fn projection_ignores_visibility<R: Row, C: Columns<R>>(
    one: TableContext<C>,
    other: TableContext<C>,
    rows: Seq<R>,
)
    requires
        one.columns == other.columns,
        one.data.sorts() == other.data.sorts(),
    ensures
        projection(&one.columns, one.data.sorts(), rows) == projection(
            &other.columns,
            other.data.sorts(),
            rows,
        ),
        sorts_fit(&one.columns, one.data.sorts()) == sorts_fit(
            &other.columns,
            other.data.sorts(),
        ),
{
}

/// The row indices that a list of row handles names.
pub open spec fn row_indices<C, R>(shown: Seq<RowData<'_, C, R>>) -> Seq<usize> {
    Seq::new(shown.len(), |k: int| shown[k].index)
}

/// The handle of one header: a visible column of a table.
pub struct HeaderData<'a, C> {
    /// The table.
    pub context: &'a TableContext<C>,
    /// The index of the column in the declaration list.
    pub column_index: usize,
}

impl<'a, C> Clone for HeaderData<'a, C> {
    fn clone(&self) -> (copy: Self)
        ensures
            copy == *self,
    {
        HeaderData { context: self.context, column_index: self.column_index }
    }
}

impl<'a, C> Copy for HeaderData<'a, C> {

}

impl<'a, C> HeaderData<'a, C> {
    /// The unique key of this header: the name of its column.
    pub fn key(&self) -> (key: String)
        requires
            self.column_index < self.context.data.names().len(),
        ensures
            key == self.context.data.names()[self.column_index as int],
    {
        self.context.data.get_column_name(self.column_index)
    }
}

/// A table: its context and its rows.
pub struct TableData<C, R> {
    /// The context of the table.
    pub context: TableContext<C>,
    /// The rows of the table, in their original order.
    pub rows: Vec<R>,
}

impl<C, R> TableData<C, R> {
    /// The filtered and sorted rows.
    pub fn rows(&self) -> (shown: Vec<RowData<'_, C, R>>) where C: Columns<R>, R: Row
        requires
            sorts_fit(&self.context.columns, self.context.data.sorts()),
        ensures
            row_indices(shown@) == projection(
                &self.context.columns,
                self.context.data.sorts(),
                self.rows@,
            ),
            forall|k: int|
                0 <= k < shown@.len() ==> (#[trigger] shown@[k]).context == &self.context
                    && shown@[k].rows == &self.rows,
    {
        self.context.rows(&self.rows)
    }
}

/// The handle of one row of the projection.
pub struct RowData<'a, C, R> {
    /// The table.
    pub context: &'a TableContext<C>,
    /// The rows of the table, in their original order.
    pub rows: &'a Vec<R>,
    /// The index of the row in the row list.
    pub index: usize,
}

impl<'a, C, R> Clone for RowData<'a, C, R> {
    fn clone(&self) -> (copy: Self)
        ensures
            copy == *self,
    {
        RowData { context: self.context, rows: self.rows, index: self.index }
    }
}

impl<'a, C, R> Copy for RowData<'a, C, R> {

}

impl<'a, C, R> RowData<'a, C, R> {
    /// The unique key of this row.
    pub fn key(&self) -> (key: String) where R: Row
        requires
            self.index < self.rows@.len(),
        ensures
            key@ == self.rows@[self.index as int].id(),
    {
        self.rows[self.index].key()
    }

    /// The cells of this row in the visible columns, in display order.
    pub fn cells(self) -> (cells: Vec<CellData<'a, C, R>>) where C: Columns<R>, R: Row
        ensures
            cells@.len() == self.context.data.order().len(),
            forall|k: int|
                0 <= k < cells@.len() ==> (#[trigger] cells@[k]).column_index
                    == self.context.data.order()[k] && cells@[k].row == self,
    {
        self.context.cells(self)
    }
}

/// The handle of one cell: a row of the projection and a visible column.
pub struct CellData<'a, C, R> {
    /// The row.
    pub row: RowData<'a, C, R>,
    /// The index of the column in the declaration list.
    pub column_index: usize,
}

impl<'a, C, R> Clone for CellData<'a, C, R> {
    fn clone(&self) -> (copy: Self)
        ensures
            copy == *self,
    {
        CellData { row: self.row, column_index: self.column_index }
    }
}

impl<'a, C, R> Copy for CellData<'a, C, R> {

}

impl<'a, C, R> CellData<'a, C, R> {
    /// The unique key of this cell within its row: the name of its column.
    pub fn key(&self) -> (key: String)
        requires
            self.column_index < self.row.context.data.names().len(),
        ensures
            key == self.row.context.data.names()[self.column_index as int],
    {
        self.row.context.data.get_column_name(self.column_index)
    }
}

} // verus!
