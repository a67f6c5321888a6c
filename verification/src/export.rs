//! The export of a table: which header and cell each call of an exporter
//! gets, and in what order.
//!
//! The plan holds indices only. Whoever drives the exporter looks up the
//! header text and the cell value of each step, hands them over, and stops
//! at the first failure.

use crate::column::TableColumn;
use crate::column_order::identity;
use crate::columns::{passes, Columns};
use crate::context::{TableContext, TableData};
use crate::projection::{kept_rows, project_rows, projection, sorts_fit};
use crate::row::Row;
use crate::sort::SortRecord;
use vstd::prelude::*;

verus! {

/// A column that can be exported. As with [`TableColumn`], `header_text`
/// says what `header` computes.
pub trait SerializableColumn<R: Row>: TableColumn<R> {
    /// The header text of this column when exported: the column's name,
    /// unless the column says otherwise.
    open spec fn header_text(&self) -> Seq<char> {
        self.name()
    }

    /// The header text of this column when exported.
    fn header(&self) -> (text: String)
        ensures
            text@ == self.header_text(),
    ;
}

/// A fixed list of columns that can be exported.
///
/// Implemented for tuples of 1 to 12 [`SerializableColumn`]s.
pub trait SerializableColumns<R: Row>: Columns<R> {
    /// The header text of the column at `column`.
    spec fn header_text(&self, column: int) -> Seq<char>;

    /// The header texts of all columns, by position.
    fn serialize_headers(&self) -> (headers: Vec<String>)
        ensures
            headers@.len() == self.width(),
            forall|column: int|
                0 <= column < self.width() ==> (#[trigger] headers@[column])@ == self.header_text(
                    column,
                ),
    ;
}

/// One call of an exporter.
#[derive(Clone, Copy, PartialEq, Eq, Debug, Structural)]
pub enum ExportStep {
    /// The header of a visible column.
    Header {
        /// The position of the column among the visible columns.
        position: usize,
        /// The index of the column in the declaration list.
        column: usize,
    },
    /// One cell of a row of the projection.
    Cell {
        /// The position of the row in the projection.
        row_position: usize,
        /// The position of the column among the visible columns.
        column_position: usize,
        /// The index of the row in the row list.
        row: usize,
        /// The index of the column in the declaration list.
        column: usize,
    },
}

/// One header step for every visible column, in display order, numbered
/// from 0.
pub open spec fn header_steps(order: Seq<usize>) -> Seq<ExportStep> {
    Seq::new(
        order.len(),
        |p: int| ExportStep::Header { position: p as usize, column: order[p] },
    )
}

/// The cell steps of one row: one for every visible column, in display
/// order, numbered from 0.
pub open spec fn row_steps(row_position: usize, row: usize, order: Seq<usize>) -> Seq<ExportStep> {
    Seq::new(
        order.len(),
        |p: int|
            ExportStep::Cell { row_position, column_position: p as usize, row, column: order[p] },
    )
}

/// The cell steps of the first `upto` rows of the projection, row by row.
pub open spec fn cell_steps(shown: Seq<usize>, order: Seq<usize>, upto: int) -> Seq<ExportStep>
    decreases upto,
{
    if upto <= 0 {
        Seq::empty()
    } else {
        cell_steps(shown, order, upto - 1) + row_steps(
            (upto - 1) as usize,
            shown[upto - 1],
            order,
        )
    }
}

/// The whole export: the headers, then the cells of every row of the
/// projection.
pub open spec fn export_steps(shown: Seq<usize>, order: Seq<usize>) -> Seq<ExportStep> {
    header_steps(order) + cell_steps(shown, order, shown.len() as int)
}

/// The step that follows `done` steps of `plan`: none after a failure, and
/// none once the plan is done.
pub open spec fn step_after(plan: Seq<ExportStep>, done: usize, failed: bool) -> Option<
    ExportStep,
> {
    if !failed && done < plan.len() {
        Some(plan[done as int])
    } else {
        None
    }
}

/// What an export does next: the step at `done`, unless the step before it
/// failed or the plan is done. A failure ends the export at once.
pub fn next_step(plan: &Vec<ExportStep>, done: usize, failed: bool) -> (step: Option<ExportStep>)
    ensures
        step == step_after(plan@, done, failed),
{
    if !failed && done < plan.len() {
        Some(plan[done])
    } else {
        None
    }
}

/// The steps of an export of the rows `shown` in the columns `order`.
pub fn plan_export(shown: &Vec<usize>, order: &Vec<usize>) -> (plan: Vec<ExportStep>)
    ensures
        plan@ == export_steps(shown@, order@),
{
    let mut plan: Vec<ExportStep> = Vec::new();
    let mut p: usize = 0;
    while p < order.len()
        invariant
            p <= order@.len(),
            plan@.len() == p,
            forall|k: int| 0 <= k < p ==> #[trigger] plan@[k] == header_steps(order@)[k],
        decreases order@.len() - p,
    {
        plan.push(ExportStep::Header { position: p, column: order[p] });
        p += 1;
    }
    assert(plan@ =~= header_steps(order@));
    let mut r: usize = 0;
    while r < shown.len()
        invariant
            r <= shown@.len(),
            plan@ == header_steps(order@) + cell_steps(shown@, order@, r as int),
        decreases shown@.len() - r,
    {
        let ghost before = plan@;
        let row = shown[r];
        let mut c: usize = 0;
        while c < order.len()
            invariant
                r < shown@.len(),
                row == shown@[r as int],
                c <= order@.len(),
                plan@.len() == before.len() + c,
                forall|k: int| 0 <= k < before.len() ==> #[trigger] plan@[k] == before[k],
                forall|k: int|
                    before.len() <= k < plan@.len() ==> #[trigger] plan@[k] == row_steps(
                        r,
                        row,
                        order@,
                    )[k - before.len()],
            decreases order@.len() - c,
        {
            plan.push(
                ExportStep::Cell { row_position: r, column_position: c, row, column: order[c] },
            );
            c += 1;
        }
        assert(plan@ =~= before + row_steps(r, row, order@));
        assert(before + row_steps(r, row, order@) =~= header_steps(order@) + cell_steps(
            shown@,
            order@,
            r + 1,
        ));
        r += 1;
    }
    plan
}

impl<C> TableContext<C> {
    /// The steps of an export of this table: one header for every visible
    /// column, in display order, then for every row of the projection one
    /// cell for every visible column. Positions count visible columns and
    /// projected rows from 0.
    pub fn export_plan<R>(&self, rows: &Vec<R>) -> (plan: Vec<ExportStep>) where
        C: Columns<R>,
        R: Row,

        requires
            sorts_fit(&self.columns, self.data.sorts()),
        ensures
            plan@ == export_steps(
                projection(&self.columns, self.data.sorts(), rows@),
                self.data.order(),
            ),
    {
        let shown = project_rows(&self.columns, self.data.sort_records(), rows);
        let order = self.data.get_column_order();
        plan_export(&shown, &order)
    }
}

impl<C, R> TableData<C, R> {
    /// The steps of an export of this table.
    pub fn export_plan(&self) -> (plan: Vec<ExportStep>) where C: Columns<R>, R: Row
        requires
            sorts_fit(&self.context.columns, self.context.data.sorts()),
        ensures
            plan@ == export_steps(
                projection(&self.context.columns, self.context.data.sorts(), self.rows@),
                self.context.data.order(),
            ),
    {
        self.context.export_plan(&self.rows)
    }
}

/// Every cell step names a row of the projection by its position and a
/// visible column by its position.
pub proof fn cell_steps_follow_the_projection(
    shown: Seq<usize>,
    order: Seq<usize>,
    upto: int,
    k: int,
)
    requires
        0 <= upto <= shown.len(),
        shown.len() <= usize::MAX,
        order.len() <= usize::MAX,
        0 <= k < cell_steps(shown, order, upto).len(),
    ensures
        match cell_steps(shown, order, upto)[k] {
            ExportStep::Cell { row_position, column_position, row, column } => {
                &&& row_position < upto
                &&& column_position < order.len()
                &&& row == shown[row_position as int]
                &&& column == order[column_position as int]
            },
            ExportStep::Header { .. } => false,
        },
    decreases upto,
{
    if upto > 0 {
        let earlier = cell_steps(shown, order, upto - 1);
        let last = row_steps((upto - 1) as usize, shown[upto - 1], order);
        if k < earlier.len() {
            cell_steps_follow_the_projection(shown, order, upto - 1, k);
            assert(cell_steps(shown, order, upto)[k] == earlier[k]);
        } else {
            assert(cell_steps(shown, order, upto)[k] == last[k - earlier.len()]);
        }
    }
}

/// With no visible column an export has no step at all.
pub proof fn nothing_visible_exports_nothing(shown: Seq<usize>, upto: int)
    ensures
        cell_steps(shown, Seq::<usize>::empty(), upto) == Seq::<ExportStep>::empty(),
        upto == shown.len() ==> export_steps(shown, Seq::<usize>::empty()) == Seq::<
            ExportStep,
        >::empty(),
    decreases upto,
{
    if upto > 0 {
        nothing_visible_exports_nothing(shown, upto - 1);
        assert(cell_steps(shown, Seq::<usize>::empty(), upto) =~= Seq::<ExportStep>::empty());
    }
    assert(header_steps(Seq::<usize>::empty()) =~= Seq::<ExportStep>::empty());
    assert(Seq::<ExportStep>::empty() + Seq::<ExportStep>::empty() =~= Seq::<ExportStep>::empty());
}

/// Where every row passes every filter, the kept rows are all rows, in
/// their original order.
pub proof fn unfiltered_rows_are_all_kept<R: Row, C: Columns<R>>(
    columns: &C,
    rows: Seq<R>,
    upto: int,
)
    requires
        0 <= upto <= rows.len(),
        rows.len() <= usize::MAX,
        forall|i: int| 0 <= i < rows.len() ==> passes(columns, #[trigger] &rows[i]),
    ensures
        kept_rows(columns, rows, upto) == identity(upto as usize),
    decreases upto,
{
    if upto > 0 {
        unfiltered_rows_are_all_kept(columns, rows, upto - 1);
        assert(passes(columns, &rows[upto - 1]));
        assert(kept_rows(columns, rows, upto) == identity((upto - 1) as usize).push(
            (upto - 1) as usize,
        ));
        assert(kept_rows(columns, rows, upto) =~= identity(upto as usize));
    } else {
        assert(kept_rows(columns, rows, upto) =~= identity(upto as usize));
    }
}

/// With nothing sorted, nothing filtered and nothing hidden or moved, an
/// export gives the headers in declaration order and the cells in the
/// original row order: every step names its column and its row by their
/// own indices.
pub proof fn plain_export_keeps_both_orders<R: Row, C: Columns<R>>(
    columns: &C,
    rows: Seq<R>,
    total: usize,
    k: int,
)
    requires
        rows.len() <= usize::MAX,
        forall|i: int| 0 <= i < rows.len() ==> passes(columns, #[trigger] &rows[i]),
        0 <= k < export_steps(
            projection(columns, Seq::<SortRecord>::empty(), rows),
            identity(total),
        ).len(),
    ensures
        projection(columns, Seq::<SortRecord>::empty(), rows) == identity(rows.len() as usize),
        k < total ==> export_steps(
            projection(columns, Seq::<SortRecord>::empty(), rows),
            identity(total),
        )[k] == (ExportStep::Header { position: k as usize, column: k as usize }),
        match export_steps(
            projection(columns, Seq::<SortRecord>::empty(), rows),
            identity(total),
        )[k] {
            ExportStep::Header { position, column } => k < total && column == position,
            ExportStep::Cell { row_position, column_position, row, column } => {
                &&& k >= total
                &&& row == row_position
                &&& row < rows.len()
                &&& column == column_position
                &&& column < total
            },
        },
{
    unfiltered_rows_are_all_kept(columns, rows, rows.len() as int);
    let shown = identity(rows.len() as usize);
    let order = identity(total);
    if k >= total {
        cell_steps_follow_the_projection(shown, order, shown.len() as int, k - total);
    }
}

impl<A: SerializableColumn<R>, R: Row> SerializableColumns<R> for (A,) {
    open spec fn header_text(&self, column: int) -> Seq<char> {
        if column == 0 {
            self.0.header_text()
        } else {
            Seq::empty()
        }
    }

    fn serialize_headers(&self) -> (headers: Vec<String>) {
        let mut headers: Vec<String> = Vec::new();
        headers.push(self.0.header());
        headers
    }
}

impl<A: SerializableColumn<R>, B: SerializableColumn<R>, R: Row> SerializableColumns<R> for (A, B) {
    open spec fn header_text(&self, column: int) -> Seq<char> {
        if column == 0 {
            self.0.header_text()
        } else if column == 1 {
            self.1.header_text()
        } else {
            Seq::empty()
        }
    }

    fn serialize_headers(&self) -> (headers: Vec<String>) {
        let mut headers: Vec<String> = Vec::new();
        headers.push(self.0.header());
        headers.push(self.1.header());
        headers
    }
}

impl<
    A: SerializableColumn<R>,
    B: SerializableColumn<R>,
    C: SerializableColumn<R>,
    R: Row,
> SerializableColumns<R> for (A, B, C) {
    open spec fn header_text(&self, column: int) -> Seq<char> {
        if column == 0 {
            self.0.header_text()
        } else if column == 1 {
            self.1.header_text()
        } else if column == 2 {
            self.2.header_text()
        } else {
            Seq::empty()
        }
    }

    fn serialize_headers(&self) -> (headers: Vec<String>) {
        let mut headers: Vec<String> = Vec::new();
        headers.push(self.0.header());
        headers.push(self.1.header());
        headers.push(self.2.header());
        headers
    }
}

impl<
    A: SerializableColumn<R>,
    B: SerializableColumn<R>,
    C: SerializableColumn<R>,
    D: SerializableColumn<R>,
    R: Row,
> SerializableColumns<R> for (A, B, C, D) {
    open spec fn header_text(&self, column: int) -> Seq<char> {
        if column == 0 {
            self.0.header_text()
        } else if column == 1 {
            self.1.header_text()
        } else if column == 2 {
            self.2.header_text()
        } else if column == 3 {
            self.3.header_text()
        } else {
            Seq::empty()
        }
    }

    fn serialize_headers(&self) -> (headers: Vec<String>) {
        let mut headers: Vec<String> = Vec::new();
        headers.push(self.0.header());
        headers.push(self.1.header());
        headers.push(self.2.header());
        headers.push(self.3.header());
        headers
    }
}

impl<
    A: SerializableColumn<R>,
    B: SerializableColumn<R>,
    C: SerializableColumn<R>,
    D: SerializableColumn<R>,
    E: SerializableColumn<R>,
    R: Row,
> SerializableColumns<R> for (A, B, C, D, E) {
    open spec fn header_text(&self, column: int) -> Seq<char> {
        if column == 0 {
            self.0.header_text()
        } else if column == 1 {
            self.1.header_text()
        } else if column == 2 {
            self.2.header_text()
        } else if column == 3 {
            self.3.header_text()
        } else if column == 4 {
            self.4.header_text()
        } else {
            Seq::empty()
        }
    }

    fn serialize_headers(&self) -> (headers: Vec<String>) {
        let mut headers: Vec<String> = Vec::new();
        headers.push(self.0.header());
        headers.push(self.1.header());
        headers.push(self.2.header());
        headers.push(self.3.header());
        headers.push(self.4.header());
        headers
    }
}

impl<
    A: SerializableColumn<R>,
    B: SerializableColumn<R>,
    C: SerializableColumn<R>,
    D: SerializableColumn<R>,
    E: SerializableColumn<R>,
    F: SerializableColumn<R>,
    R: Row,
> SerializableColumns<R> for (A, B, C, D, E, F) {
    open spec fn header_text(&self, column: int) -> Seq<char> {
        if column == 0 {
            self.0.header_text()
        } else if column == 1 {
            self.1.header_text()
        } else if column == 2 {
            self.2.header_text()
        } else if column == 3 {
            self.3.header_text()
        } else if column == 4 {
            self.4.header_text()
        } else if column == 5 {
            self.5.header_text()
        } else {
            Seq::empty()
        }
    }

    fn serialize_headers(&self) -> (headers: Vec<String>) {
        let mut headers: Vec<String> = Vec::new();
        headers.push(self.0.header());
        headers.push(self.1.header());
        headers.push(self.2.header());
        headers.push(self.3.header());
        headers.push(self.4.header());
        headers.push(self.5.header());
        headers
    }
}

impl<
    A: SerializableColumn<R>,
    B: SerializableColumn<R>,
    C: SerializableColumn<R>,
    D: SerializableColumn<R>,
    E: SerializableColumn<R>,
    F: SerializableColumn<R>,
    G: SerializableColumn<R>,
    R: Row,
> SerializableColumns<R> for (A, B, C, D, E, F, G) {
    open spec fn header_text(&self, column: int) -> Seq<char> {
        if column == 0 {
            self.0.header_text()
        } else if column == 1 {
            self.1.header_text()
        } else if column == 2 {
            self.2.header_text()
        } else if column == 3 {
            self.3.header_text()
        } else if column == 4 {
            self.4.header_text()
        } else if column == 5 {
            self.5.header_text()
        } else if column == 6 {
            self.6.header_text()
        } else {
            Seq::empty()
        }
    }

    fn serialize_headers(&self) -> (headers: Vec<String>) {
        let mut headers: Vec<String> = Vec::new();
        headers.push(self.0.header());
        headers.push(self.1.header());
        headers.push(self.2.header());
        headers.push(self.3.header());
        headers.push(self.4.header());
        headers.push(self.5.header());
        headers.push(self.6.header());
        headers
    }
}

impl<
    A: SerializableColumn<R>,
    B: SerializableColumn<R>,
    C: SerializableColumn<R>,
    D: SerializableColumn<R>,
    E: SerializableColumn<R>,
    F: SerializableColumn<R>,
    G: SerializableColumn<R>,
    H: SerializableColumn<R>,
    R: Row,
> SerializableColumns<R> for (A, B, C, D, E, F, G, H) {
    open spec fn header_text(&self, column: int) -> Seq<char> {
        if column == 0 {
            self.0.header_text()
        } else if column == 1 {
            self.1.header_text()
        } else if column == 2 {
            self.2.header_text()
        } else if column == 3 {
            self.3.header_text()
        } else if column == 4 {
            self.4.header_text()
        } else if column == 5 {
            self.5.header_text()
        } else if column == 6 {
            self.6.header_text()
        } else if column == 7 {
            self.7.header_text()
        } else {
            Seq::empty()
        }
    }

    fn serialize_headers(&self) -> (headers: Vec<String>) {
        let mut headers: Vec<String> = Vec::new();
        headers.push(self.0.header());
        headers.push(self.1.header());
        headers.push(self.2.header());
        headers.push(self.3.header());
        headers.push(self.4.header());
        headers.push(self.5.header());
        headers.push(self.6.header());
        headers.push(self.7.header());
        headers
    }
}

impl<
    A: SerializableColumn<R>,
    B: SerializableColumn<R>,
    C: SerializableColumn<R>,
    D: SerializableColumn<R>,
    E: SerializableColumn<R>,
    F: SerializableColumn<R>,
    G: SerializableColumn<R>,
    H: SerializableColumn<R>,
    I: SerializableColumn<R>,
    R: Row,
> SerializableColumns<R> for (A, B, C, D, E, F, G, H, I) {
    open spec fn header_text(&self, column: int) -> Seq<char> {
        if column == 0 {
            self.0.header_text()
        } else if column == 1 {
            self.1.header_text()
        } else if column == 2 {
            self.2.header_text()
        } else if column == 3 {
            self.3.header_text()
        } else if column == 4 {
            self.4.header_text()
        } else if column == 5 {
            self.5.header_text()
        } else if column == 6 {
            self.6.header_text()
        } else if column == 7 {
            self.7.header_text()
        } else if column == 8 {
            self.8.header_text()
        } else {
            Seq::empty()
        }
    }

    fn serialize_headers(&self) -> (headers: Vec<String>) {
        let mut headers: Vec<String> = Vec::new();
        headers.push(self.0.header());
        headers.push(self.1.header());
        headers.push(self.2.header());
        headers.push(self.3.header());
        headers.push(self.4.header());
        headers.push(self.5.header());
        headers.push(self.6.header());
        headers.push(self.7.header());
        headers.push(self.8.header());
        headers
    }
}

impl<
    A: SerializableColumn<R>,
    B: SerializableColumn<R>,
    C: SerializableColumn<R>,
    D: SerializableColumn<R>,
    E: SerializableColumn<R>,
    F: SerializableColumn<R>,
    G: SerializableColumn<R>,
    H: SerializableColumn<R>,
    I: SerializableColumn<R>,
    J: SerializableColumn<R>,
    R: Row,
> SerializableColumns<R> for (A, B, C, D, E, F, G, H, I, J) {
    open spec fn header_text(&self, column: int) -> Seq<char> {
        if column == 0 {
            self.0.header_text()
        } else if column == 1 {
            self.1.header_text()
        } else if column == 2 {
            self.2.header_text()
        } else if column == 3 {
            self.3.header_text()
        } else if column == 4 {
            self.4.header_text()
        } else if column == 5 {
            self.5.header_text()
        } else if column == 6 {
            self.6.header_text()
        } else if column == 7 {
            self.7.header_text()
        } else if column == 8 {
            self.8.header_text()
        } else if column == 9 {
            self.9.header_text()
        } else {
            Seq::empty()
        }
    }

    fn serialize_headers(&self) -> (headers: Vec<String>) {
        let mut headers: Vec<String> = Vec::new();
        headers.push(self.0.header());
        headers.push(self.1.header());
        headers.push(self.2.header());
        headers.push(self.3.header());
        headers.push(self.4.header());
        headers.push(self.5.header());
        headers.push(self.6.header());
        headers.push(self.7.header());
        headers.push(self.8.header());
        headers.push(self.9.header());
        headers
    }
}

impl<
    A: SerializableColumn<R>,
    B: SerializableColumn<R>,
    C: SerializableColumn<R>,
    D: SerializableColumn<R>,
    E: SerializableColumn<R>,
    F: SerializableColumn<R>,
    G: SerializableColumn<R>,
    H: SerializableColumn<R>,
    I: SerializableColumn<R>,
    J: SerializableColumn<R>,
    K: SerializableColumn<R>,
    R: Row,
> SerializableColumns<R> for (A, B, C, D, E, F, G, H, I, J, K) {
    open spec fn header_text(&self, column: int) -> Seq<char> {
        if column == 0 {
            self.0.header_text()
        } else if column == 1 {
            self.1.header_text()
        } else if column == 2 {
            self.2.header_text()
        } else if column == 3 {
            self.3.header_text()
        } else if column == 4 {
            self.4.header_text()
        } else if column == 5 {
            self.5.header_text()
        } else if column == 6 {
            self.6.header_text()
        } else if column == 7 {
            self.7.header_text()
        } else if column == 8 {
            self.8.header_text()
        } else if column == 9 {
            self.9.header_text()
        } else if column == 10 {
            self.10.header_text()
        } else {
            Seq::empty()
        }
    }

    fn serialize_headers(&self) -> (headers: Vec<String>) {
        let mut headers: Vec<String> = Vec::new();
        headers.push(self.0.header());
        headers.push(self.1.header());
        headers.push(self.2.header());
        headers.push(self.3.header());
        headers.push(self.4.header());
        headers.push(self.5.header());
        headers.push(self.6.header());
        headers.push(self.7.header());
        headers.push(self.8.header());
        headers.push(self.9.header());
        headers.push(self.10.header());
        headers
    }
}

impl<
    A: SerializableColumn<R>,
    B: SerializableColumn<R>,
    C: SerializableColumn<R>,
    D: SerializableColumn<R>,
    E: SerializableColumn<R>,
    F: SerializableColumn<R>,
    G: SerializableColumn<R>,
    H: SerializableColumn<R>,
    I: SerializableColumn<R>,
    J: SerializableColumn<R>,
    K: SerializableColumn<R>,
    L: SerializableColumn<R>,
    R: Row,
> SerializableColumns<R> for (A, B, C, D, E, F, G, H, I, J, K, L) {
    open spec fn header_text(&self, column: int) -> Seq<char> {
        if column == 0 {
            self.0.header_text()
        } else if column == 1 {
            self.1.header_text()
        } else if column == 2 {
            self.2.header_text()
        } else if column == 3 {
            self.3.header_text()
        } else if column == 4 {
            self.4.header_text()
        } else if column == 5 {
            self.5.header_text()
        } else if column == 6 {
            self.6.header_text()
        } else if column == 7 {
            self.7.header_text()
        } else if column == 8 {
            self.8.header_text()
        } else if column == 9 {
            self.9.header_text()
        } else if column == 10 {
            self.10.header_text()
        } else if column == 11 {
            self.11.header_text()
        } else {
            Seq::empty()
        }
    }

    fn serialize_headers(&self) -> (headers: Vec<String>) {
        let mut headers: Vec<String> = Vec::new();
        headers.push(self.0.header());
        headers.push(self.1.header());
        headers.push(self.2.header());
        headers.push(self.3.header());
        headers.push(self.4.header());
        headers.push(self.5.header());
        headers.push(self.6.header());
        headers.push(self.7.header());
        headers.push(self.8.header());
        headers.push(self.9.header());
        headers.push(self.10.header());
        headers.push(self.11.header());
        headers
    }
}

} // verus!
