//! A fixed list of columns, seen as one: the tuples of one to twelve
//! columns.

use crate::column::{Comparison, TableColumn};
use crate::row::Row;
use vstd::prelude::*;

verus! {

/// A fixed list of columns over one row type. A column is known by its
/// position in the list.
///
/// Implemented for tuples of 1 to 12 [`TableColumn`]s.
pub trait Columns<R: Row> {
    /// How many columns the list holds.
    spec fn width(&self) -> nat;

    /// The name of the column at `column`.
    spec fn name(&self, column: int) -> Seq<char>;

    /// Whether the column at `column` keeps `row`.
    spec fn keeps(&self, column: int, row: &R) -> bool;

    /// How `a` stands to `b` under the sort key of the column at `column`.
    spec fn ranks(&self, column: int, a: &R, b: &R) -> Comparison;

    /// The names of all columns, by position.
    fn column_names(&self) -> (names: Vec<String>)
        ensures
            names@.len() == self.width(),
            forall|column: int|
                0 <= column < self.width() ==> (#[trigger] names@[column])@ == self.name(column),
    ;

    /// Whether the row passes the filter of every column.
    fn filter(&self, row: &R) -> (keep: bool)
        ensures
            keep == (forall|column: int|
                0 <= column < self.width() ==> #[trigger] self.keeps(column, row)),
    ;

    /// Compares two rows under the sort key of the column at `column`.
    fn compare(&self, column: usize, a: &R, b: &R) -> (result: Comparison)
        requires
            column < self.width(),
        ensures
            result == self.ranks(column as int, a, b),
    ;
}

/// Whether every column of the list keeps `row`.
pub open spec fn passes<R: Row, C: Columns<R>>(columns: &C, row: &R) -> bool {
    forall|column: int| 0 <= column < columns.width() ==> #[trigger] columns.keeps(column, row)
}

impl<A: TableColumn<R>, R: Row> Columns<R> for (A,) {
    open spec fn width(&self) -> nat {
        1
    }

    open spec fn name(&self, column: int) -> Seq<char> {
        if column == 0 {
            self.0.name()
        } else {
            Seq::empty()
        }
    }

    open spec fn keeps(&self, column: int, row: &R) -> bool {
        if column == 0 {
            self.0.keeps(row)
        } else {
            true
        }
    }

    open spec fn ranks(&self, column: int, a: &R, b: &R) -> Comparison {
        if column == 0 {
            self.0.ranks(a, b)
        } else {
            Comparison::Equal
        }
    }

    fn column_names(&self) -> (names: Vec<String>) {
        let mut names: Vec<String> = Vec::new();
        names.push(self.0.column_name());
        names
    }

    fn filter(&self, row: &R) -> (keep: bool) {
        let keep = self.0.filter(row);
        proof {
            if keep {
                assert forall|column: int| 0 <= column < self.width() implies #[trigger] self.keeps(
                    column,
                    row,
                ) by {}
            } else {
                if !self.0.keeps(row) {
                    assert(!self.keeps(0, row));
                }
            }
        }
        keep
    }

    fn compare(&self, column: usize, a: &R, b: &R) -> (result: Comparison) {
        self.0.compare(a, b)
    }
}

impl<A: TableColumn<R>, B: TableColumn<R>, R: Row> Columns<R> for (A, B) {
    open spec fn width(&self) -> nat {
        2
    }

    open spec fn name(&self, column: int) -> Seq<char> {
        if column == 0 {
            self.0.name()
        } else if column == 1 {
            self.1.name()
        } else {
            Seq::empty()
        }
    }

    open spec fn keeps(&self, column: int, row: &R) -> bool {
        if column == 0 {
            self.0.keeps(row)
        } else if column == 1 {
            self.1.keeps(row)
        } else {
            true
        }
    }

    open spec fn ranks(&self, column: int, a: &R, b: &R) -> Comparison {
        if column == 0 {
            self.0.ranks(a, b)
        } else if column == 1 {
            self.1.ranks(a, b)
        } else {
            Comparison::Equal
        }
    }

    fn column_names(&self) -> (names: Vec<String>) {
        let mut names: Vec<String> = Vec::new();
        names.push(self.0.column_name());
        names.push(self.1.column_name());
        names
    }

    fn filter(&self, row: &R) -> (keep: bool) {
        let keep = self.0.filter(row)
            && self.1.filter(row);
        proof {
            if keep {
                assert forall|column: int| 0 <= column < self.width() implies #[trigger] self.keeps(
                    column,
                    row,
                ) by {}
            } else {
                if !self.0.keeps(row) {
                    assert(!self.keeps(0, row));
                }
                if !self.1.keeps(row) {
                    assert(!self.keeps(1, row));
                }
            }
        }
        keep
    }

    fn compare(&self, column: usize, a: &R, b: &R) -> (result: Comparison) {
        if column == 0 {
            self.0.compare(a, b)
        } else {
            self.1.compare(a, b)
        }
    }
}

impl<A: TableColumn<R>, B: TableColumn<R>, C: TableColumn<R>, R: Row> Columns<R> for (A, B, C) {
    open spec fn width(&self) -> nat {
        3
    }

    open spec fn name(&self, column: int) -> Seq<char> {
        if column == 0 {
            self.0.name()
        } else if column == 1 {
            self.1.name()
        } else if column == 2 {
            self.2.name()
        } else {
            Seq::empty()
        }
    }

    open spec fn keeps(&self, column: int, row: &R) -> bool {
        if column == 0 {
            self.0.keeps(row)
        } else if column == 1 {
            self.1.keeps(row)
        } else if column == 2 {
            self.2.keeps(row)
        } else {
            true
        }
    }

    open spec fn ranks(&self, column: int, a: &R, b: &R) -> Comparison {
        if column == 0 {
            self.0.ranks(a, b)
        } else if column == 1 {
            self.1.ranks(a, b)
        } else if column == 2 {
            self.2.ranks(a, b)
        } else {
            Comparison::Equal
        }
    }

    fn column_names(&self) -> (names: Vec<String>) {
        let mut names: Vec<String> = Vec::new();
        names.push(self.0.column_name());
        names.push(self.1.column_name());
        names.push(self.2.column_name());
        names
    }

    fn filter(&self, row: &R) -> (keep: bool) {
        let keep = self.0.filter(row)
            && self.1.filter(row)
            && self.2.filter(row);
        proof {
            if keep {
                assert forall|column: int| 0 <= column < self.width() implies #[trigger] self.keeps(
                    column,
                    row,
                ) by {}
            } else {
                if !self.0.keeps(row) {
                    assert(!self.keeps(0, row));
                }
                if !self.1.keeps(row) {
                    assert(!self.keeps(1, row));
                }
                if !self.2.keeps(row) {
                    assert(!self.keeps(2, row));
                }
            }
        }
        keep
    }

    fn compare(&self, column: usize, a: &R, b: &R) -> (result: Comparison) {
        if column == 0 {
            self.0.compare(a, b)
        } else if column == 1 {
            self.1.compare(a, b)
        } else {
            self.2.compare(a, b)
        }
    }
}

impl<
    A: TableColumn<R>,
    B: TableColumn<R>,
    C: TableColumn<R>,
    D: TableColumn<R>,
    R: Row,
> Columns<R> for (A, B, C, D) {
    open spec fn width(&self) -> nat {
        4
    }

    open spec fn name(&self, column: int) -> Seq<char> {
        if column == 0 {
            self.0.name()
        } else if column == 1 {
            self.1.name()
        } else if column == 2 {
            self.2.name()
        } else if column == 3 {
            self.3.name()
        } else {
            Seq::empty()
        }
    }

    open spec fn keeps(&self, column: int, row: &R) -> bool {
        if column == 0 {
            self.0.keeps(row)
        } else if column == 1 {
            self.1.keeps(row)
        } else if column == 2 {
            self.2.keeps(row)
        } else if column == 3 {
            self.3.keeps(row)
        } else {
            true
        }
    }

    open spec fn ranks(&self, column: int, a: &R, b: &R) -> Comparison {
        if column == 0 {
            self.0.ranks(a, b)
        } else if column == 1 {
            self.1.ranks(a, b)
        } else if column == 2 {
            self.2.ranks(a, b)
        } else if column == 3 {
            self.3.ranks(a, b)
        } else {
            Comparison::Equal
        }
    }

    fn column_names(&self) -> (names: Vec<String>) {
        let mut names: Vec<String> = Vec::new();
        names.push(self.0.column_name());
        names.push(self.1.column_name());
        names.push(self.2.column_name());
        names.push(self.3.column_name());
        names
    }

    fn filter(&self, row: &R) -> (keep: bool) {
        let keep = self.0.filter(row)
            && self.1.filter(row)
            && self.2.filter(row)
            && self.3.filter(row);
        proof {
            if keep {
                assert forall|column: int| 0 <= column < self.width() implies #[trigger] self.keeps(
                    column,
                    row,
                ) by {}
            } else {
                if !self.0.keeps(row) {
                    assert(!self.keeps(0, row));
                }
                if !self.1.keeps(row) {
                    assert(!self.keeps(1, row));
                }
                if !self.2.keeps(row) {
                    assert(!self.keeps(2, row));
                }
                if !self.3.keeps(row) {
                    assert(!self.keeps(3, row));
                }
            }
        }
        keep
    }

    fn compare(&self, column: usize, a: &R, b: &R) -> (result: Comparison) {
        if column == 0 {
            self.0.compare(a, b)
        } else if column == 1 {
            self.1.compare(a, b)
        } else if column == 2 {
            self.2.compare(a, b)
        } else {
            self.3.compare(a, b)
        }
    }
}

impl<
    A: TableColumn<R>,
    B: TableColumn<R>,
    C: TableColumn<R>,
    D: TableColumn<R>,
    E: TableColumn<R>,
    R: Row,
> Columns<R> for (A, B, C, D, E) {
    open spec fn width(&self) -> nat {
        5
    }

    open spec fn name(&self, column: int) -> Seq<char> {
        if column == 0 {
            self.0.name()
        } else if column == 1 {
            self.1.name()
        } else if column == 2 {
            self.2.name()
        } else if column == 3 {
            self.3.name()
        } else if column == 4 {
            self.4.name()
        } else {
            Seq::empty()
        }
    }

    open spec fn keeps(&self, column: int, row: &R) -> bool {
        if column == 0 {
            self.0.keeps(row)
        } else if column == 1 {
            self.1.keeps(row)
        } else if column == 2 {
            self.2.keeps(row)
        } else if column == 3 {
            self.3.keeps(row)
        } else if column == 4 {
            self.4.keeps(row)
        } else {
            true
        }
    }

    open spec fn ranks(&self, column: int, a: &R, b: &R) -> Comparison {
        if column == 0 {
            self.0.ranks(a, b)
        } else if column == 1 {
            self.1.ranks(a, b)
        } else if column == 2 {
            self.2.ranks(a, b)
        } else if column == 3 {
            self.3.ranks(a, b)
        } else if column == 4 {
            self.4.ranks(a, b)
        } else {
            Comparison::Equal
        }
    }

    fn column_names(&self) -> (names: Vec<String>) {
        let mut names: Vec<String> = Vec::new();
        names.push(self.0.column_name());
        names.push(self.1.column_name());
        names.push(self.2.column_name());
        names.push(self.3.column_name());
        names.push(self.4.column_name());
        names
    }

    fn filter(&self, row: &R) -> (keep: bool) {
        let keep = self.0.filter(row)
            && self.1.filter(row)
            && self.2.filter(row)
            && self.3.filter(row)
            && self.4.filter(row);
        proof {
            if keep {
                assert forall|column: int| 0 <= column < self.width() implies #[trigger] self.keeps(
                    column,
                    row,
                ) by {}
            } else {
                if !self.0.keeps(row) {
                    assert(!self.keeps(0, row));
                }
                if !self.1.keeps(row) {
                    assert(!self.keeps(1, row));
                }
                if !self.2.keeps(row) {
                    assert(!self.keeps(2, row));
                }
                if !self.3.keeps(row) {
                    assert(!self.keeps(3, row));
                }
                if !self.4.keeps(row) {
                    assert(!self.keeps(4, row));
                }
            }
        }
        keep
    }

    fn compare(&self, column: usize, a: &R, b: &R) -> (result: Comparison) {
        if column == 0 {
            self.0.compare(a, b)
        } else if column == 1 {
            self.1.compare(a, b)
        } else if column == 2 {
            self.2.compare(a, b)
        } else if column == 3 {
            self.3.compare(a, b)
        } else {
            self.4.compare(a, b)
        }
    }
}

impl<
    A: TableColumn<R>,
    B: TableColumn<R>,
    C: TableColumn<R>,
    D: TableColumn<R>,
    E: TableColumn<R>,
    F: TableColumn<R>,
    R: Row,
> Columns<R> for (A, B, C, D, E, F) {
    open spec fn width(&self) -> nat {
        6
    }

    open spec fn name(&self, column: int) -> Seq<char> {
        if column == 0 {
            self.0.name()
        } else if column == 1 {
            self.1.name()
        } else if column == 2 {
            self.2.name()
        } else if column == 3 {
            self.3.name()
        } else if column == 4 {
            self.4.name()
        } else if column == 5 {
            self.5.name()
        } else {
            Seq::empty()
        }
    }

    open spec fn keeps(&self, column: int, row: &R) -> bool {
        if column == 0 {
            self.0.keeps(row)
        } else if column == 1 {
            self.1.keeps(row)
        } else if column == 2 {
            self.2.keeps(row)
        } else if column == 3 {
            self.3.keeps(row)
        } else if column == 4 {
            self.4.keeps(row)
        } else if column == 5 {
            self.5.keeps(row)
        } else {
            true
        }
    }

    open spec fn ranks(&self, column: int, a: &R, b: &R) -> Comparison {
        if column == 0 {
            self.0.ranks(a, b)
        } else if column == 1 {
            self.1.ranks(a, b)
        } else if column == 2 {
            self.2.ranks(a, b)
        } else if column == 3 {
            self.3.ranks(a, b)
        } else if column == 4 {
            self.4.ranks(a, b)
        } else if column == 5 {
            self.5.ranks(a, b)
        } else {
            Comparison::Equal
        }
    }

    fn column_names(&self) -> (names: Vec<String>) {
        let mut names: Vec<String> = Vec::new();
        names.push(self.0.column_name());
        names.push(self.1.column_name());
        names.push(self.2.column_name());
        names.push(self.3.column_name());
        names.push(self.4.column_name());
        names.push(self.5.column_name());
        names
    }

    fn filter(&self, row: &R) -> (keep: bool) {
        let keep = self.0.filter(row)
            && self.1.filter(row)
            && self.2.filter(row)
            && self.3.filter(row)
            && self.4.filter(row)
            && self.5.filter(row);
        proof {
            if keep {
                assert forall|column: int| 0 <= column < self.width() implies #[trigger] self.keeps(
                    column,
                    row,
                ) by {}
            } else {
                if !self.0.keeps(row) {
                    assert(!self.keeps(0, row));
                }
                if !self.1.keeps(row) {
                    assert(!self.keeps(1, row));
                }
                if !self.2.keeps(row) {
                    assert(!self.keeps(2, row));
                }
                if !self.3.keeps(row) {
                    assert(!self.keeps(3, row));
                }
                if !self.4.keeps(row) {
                    assert(!self.keeps(4, row));
                }
                if !self.5.keeps(row) {
                    assert(!self.keeps(5, row));
                }
            }
        }
        keep
    }

    fn compare(&self, column: usize, a: &R, b: &R) -> (result: Comparison) {
        if column == 0 {
            self.0.compare(a, b)
        } else if column == 1 {
            self.1.compare(a, b)
        } else if column == 2 {
            self.2.compare(a, b)
        } else if column == 3 {
            self.3.compare(a, b)
        } else if column == 4 {
            self.4.compare(a, b)
        } else {
            self.5.compare(a, b)
        }
    }
}

impl<
    A: TableColumn<R>,
    B: TableColumn<R>,
    C: TableColumn<R>,
    D: TableColumn<R>,
    E: TableColumn<R>,
    F: TableColumn<R>,
    G: TableColumn<R>,
    R: Row,
> Columns<R> for (A, B, C, D, E, F, G) {
    open spec fn width(&self) -> nat {
        7
    }

    open spec fn name(&self, column: int) -> Seq<char> {
        if column == 0 {
            self.0.name()
        } else if column == 1 {
            self.1.name()
        } else if column == 2 {
            self.2.name()
        } else if column == 3 {
            self.3.name()
        } else if column == 4 {
            self.4.name()
        } else if column == 5 {
            self.5.name()
        } else if column == 6 {
            self.6.name()
        } else {
            Seq::empty()
        }
    }

    open spec fn keeps(&self, column: int, row: &R) -> bool {
        if column == 0 {
            self.0.keeps(row)
        } else if column == 1 {
            self.1.keeps(row)
        } else if column == 2 {
            self.2.keeps(row)
        } else if column == 3 {
            self.3.keeps(row)
        } else if column == 4 {
            self.4.keeps(row)
        } else if column == 5 {
            self.5.keeps(row)
        } else if column == 6 {
            self.6.keeps(row)
        } else {
            true
        }
    }

    open spec fn ranks(&self, column: int, a: &R, b: &R) -> Comparison {
        if column == 0 {
            self.0.ranks(a, b)
        } else if column == 1 {
            self.1.ranks(a, b)
        } else if column == 2 {
            self.2.ranks(a, b)
        } else if column == 3 {
            self.3.ranks(a, b)
        } else if column == 4 {
            self.4.ranks(a, b)
        } else if column == 5 {
            self.5.ranks(a, b)
        } else if column == 6 {
            self.6.ranks(a, b)
        } else {
            Comparison::Equal
        }
    }

    fn column_names(&self) -> (names: Vec<String>) {
        let mut names: Vec<String> = Vec::new();
        names.push(self.0.column_name());
        names.push(self.1.column_name());
        names.push(self.2.column_name());
        names.push(self.3.column_name());
        names.push(self.4.column_name());
        names.push(self.5.column_name());
        names.push(self.6.column_name());
        names
    }

    fn filter(&self, row: &R) -> (keep: bool) {
        let keep = self.0.filter(row)
            && self.1.filter(row)
            && self.2.filter(row)
            && self.3.filter(row)
            && self.4.filter(row)
            && self.5.filter(row)
            && self.6.filter(row);
        proof {
            if keep {
                assert forall|column: int| 0 <= column < self.width() implies #[trigger] self.keeps(
                    column,
                    row,
                ) by {}
            } else {
                if !self.0.keeps(row) {
                    assert(!self.keeps(0, row));
                }
                if !self.1.keeps(row) {
                    assert(!self.keeps(1, row));
                }
                if !self.2.keeps(row) {
                    assert(!self.keeps(2, row));
                }
                if !self.3.keeps(row) {
                    assert(!self.keeps(3, row));
                }
                if !self.4.keeps(row) {
                    assert(!self.keeps(4, row));
                }
                if !self.5.keeps(row) {
                    assert(!self.keeps(5, row));
                }
                if !self.6.keeps(row) {
                    assert(!self.keeps(6, row));
                }
            }
        }
        keep
    }

    fn compare(&self, column: usize, a: &R, b: &R) -> (result: Comparison) {
        if column == 0 {
            self.0.compare(a, b)
        } else if column == 1 {
            self.1.compare(a, b)
        } else if column == 2 {
            self.2.compare(a, b)
        } else if column == 3 {
            self.3.compare(a, b)
        } else if column == 4 {
            self.4.compare(a, b)
        } else if column == 5 {
            self.5.compare(a, b)
        } else {
            self.6.compare(a, b)
        }
    }
}

impl<
    A: TableColumn<R>,
    B: TableColumn<R>,
    C: TableColumn<R>,
    D: TableColumn<R>,
    E: TableColumn<R>,
    F: TableColumn<R>,
    G: TableColumn<R>,
    H: TableColumn<R>,
    R: Row,
> Columns<R> for (A, B, C, D, E, F, G, H) {
    open spec fn width(&self) -> nat {
        8
    }

    open spec fn name(&self, column: int) -> Seq<char> {
        if column == 0 {
            self.0.name()
        } else if column == 1 {
            self.1.name()
        } else if column == 2 {
            self.2.name()
        } else if column == 3 {
            self.3.name()
        } else if column == 4 {
            self.4.name()
        } else if column == 5 {
            self.5.name()
        } else if column == 6 {
            self.6.name()
        } else if column == 7 {
            self.7.name()
        } else {
            Seq::empty()
        }
    }

    open spec fn keeps(&self, column: int, row: &R) -> bool {
        if column == 0 {
            self.0.keeps(row)
        } else if column == 1 {
            self.1.keeps(row)
        } else if column == 2 {
            self.2.keeps(row)
        } else if column == 3 {
            self.3.keeps(row)
        } else if column == 4 {
            self.4.keeps(row)
        } else if column == 5 {
            self.5.keeps(row)
        } else if column == 6 {
            self.6.keeps(row)
        } else if column == 7 {
            self.7.keeps(row)
        } else {
            true
        }
    }

    open spec fn ranks(&self, column: int, a: &R, b: &R) -> Comparison {
        if column == 0 {
            self.0.ranks(a, b)
        } else if column == 1 {
            self.1.ranks(a, b)
        } else if column == 2 {
            self.2.ranks(a, b)
        } else if column == 3 {
            self.3.ranks(a, b)
        } else if column == 4 {
            self.4.ranks(a, b)
        } else if column == 5 {
            self.5.ranks(a, b)
        } else if column == 6 {
            self.6.ranks(a, b)
        } else if column == 7 {
            self.7.ranks(a, b)
        } else {
            Comparison::Equal
        }
    }

    fn column_names(&self) -> (names: Vec<String>) {
        let mut names: Vec<String> = Vec::new();
        names.push(self.0.column_name());
        names.push(self.1.column_name());
        names.push(self.2.column_name());
        names.push(self.3.column_name());
        names.push(self.4.column_name());
        names.push(self.5.column_name());
        names.push(self.6.column_name());
        names.push(self.7.column_name());
        names
    }

    fn filter(&self, row: &R) -> (keep: bool) {
        let keep = self.0.filter(row)
            && self.1.filter(row)
            && self.2.filter(row)
            && self.3.filter(row)
            && self.4.filter(row)
            && self.5.filter(row)
            && self.6.filter(row)
            && self.7.filter(row);
        proof {
            if keep {
                assert forall|column: int| 0 <= column < self.width() implies #[trigger] self.keeps(
                    column,
                    row,
                ) by {}
            } else {
                if !self.0.keeps(row) {
                    assert(!self.keeps(0, row));
                }
                if !self.1.keeps(row) {
                    assert(!self.keeps(1, row));
                }
                if !self.2.keeps(row) {
                    assert(!self.keeps(2, row));
                }
                if !self.3.keeps(row) {
                    assert(!self.keeps(3, row));
                }
                if !self.4.keeps(row) {
                    assert(!self.keeps(4, row));
                }
                if !self.5.keeps(row) {
                    assert(!self.keeps(5, row));
                }
                if !self.6.keeps(row) {
                    assert(!self.keeps(6, row));
                }
                if !self.7.keeps(row) {
                    assert(!self.keeps(7, row));
                }
            }
        }
        keep
    }

    fn compare(&self, column: usize, a: &R, b: &R) -> (result: Comparison) {
        if column == 0 {
            self.0.compare(a, b)
        } else if column == 1 {
            self.1.compare(a, b)
        } else if column == 2 {
            self.2.compare(a, b)
        } else if column == 3 {
            self.3.compare(a, b)
        } else if column == 4 {
            self.4.compare(a, b)
        } else if column == 5 {
            self.5.compare(a, b)
        } else if column == 6 {
            self.6.compare(a, b)
        } else {
            self.7.compare(a, b)
        }
    }
}

impl<
    A: TableColumn<R>,
    B: TableColumn<R>,
    C: TableColumn<R>,
    D: TableColumn<R>,
    E: TableColumn<R>,
    F: TableColumn<R>,
    G: TableColumn<R>,
    H: TableColumn<R>,
    I: TableColumn<R>,
    R: Row,
> Columns<R> for (A, B, C, D, E, F, G, H, I) {
    open spec fn width(&self) -> nat {
        9
    }

    open spec fn name(&self, column: int) -> Seq<char> {
        if column == 0 {
            self.0.name()
        } else if column == 1 {
            self.1.name()
        } else if column == 2 {
            self.2.name()
        } else if column == 3 {
            self.3.name()
        } else if column == 4 {
            self.4.name()
        } else if column == 5 {
            self.5.name()
        } else if column == 6 {
            self.6.name()
        } else if column == 7 {
            self.7.name()
        } else if column == 8 {
            self.8.name()
        } else {
            Seq::empty()
        }
    }

    open spec fn keeps(&self, column: int, row: &R) -> bool {
        if column == 0 {
            self.0.keeps(row)
        } else if column == 1 {
            self.1.keeps(row)
        } else if column == 2 {
            self.2.keeps(row)
        } else if column == 3 {
            self.3.keeps(row)
        } else if column == 4 {
            self.4.keeps(row)
        } else if column == 5 {
            self.5.keeps(row)
        } else if column == 6 {
            self.6.keeps(row)
        } else if column == 7 {
            self.7.keeps(row)
        } else if column == 8 {
            self.8.keeps(row)
        } else {
            true
        }
    }

    open spec fn ranks(&self, column: int, a: &R, b: &R) -> Comparison {
        if column == 0 {
            self.0.ranks(a, b)
        } else if column == 1 {
            self.1.ranks(a, b)
        } else if column == 2 {
            self.2.ranks(a, b)
        } else if column == 3 {
            self.3.ranks(a, b)
        } else if column == 4 {
            self.4.ranks(a, b)
        } else if column == 5 {
            self.5.ranks(a, b)
        } else if column == 6 {
            self.6.ranks(a, b)
        } else if column == 7 {
            self.7.ranks(a, b)
        } else if column == 8 {
            self.8.ranks(a, b)
        } else {
            Comparison::Equal
        }
    }

    fn column_names(&self) -> (names: Vec<String>) {
        let mut names: Vec<String> = Vec::new();
        names.push(self.0.column_name());
        names.push(self.1.column_name());
        names.push(self.2.column_name());
        names.push(self.3.column_name());
        names.push(self.4.column_name());
        names.push(self.5.column_name());
        names.push(self.6.column_name());
        names.push(self.7.column_name());
        names.push(self.8.column_name());
        names
    }

    fn filter(&self, row: &R) -> (keep: bool) {
        let keep = self.0.filter(row)
            && self.1.filter(row)
            && self.2.filter(row)
            && self.3.filter(row)
            && self.4.filter(row)
            && self.5.filter(row)
            && self.6.filter(row)
            && self.7.filter(row)
            && self.8.filter(row);
        proof {
            if keep {
                assert forall|column: int| 0 <= column < self.width() implies #[trigger] self.keeps(
                    column,
                    row,
                ) by {}
            } else {
                if !self.0.keeps(row) {
                    assert(!self.keeps(0, row));
                }
                if !self.1.keeps(row) {
                    assert(!self.keeps(1, row));
                }
                if !self.2.keeps(row) {
                    assert(!self.keeps(2, row));
                }
                if !self.3.keeps(row) {
                    assert(!self.keeps(3, row));
                }
                if !self.4.keeps(row) {
                    assert(!self.keeps(4, row));
                }
                if !self.5.keeps(row) {
                    assert(!self.keeps(5, row));
                }
                if !self.6.keeps(row) {
                    assert(!self.keeps(6, row));
                }
                if !self.7.keeps(row) {
                    assert(!self.keeps(7, row));
                }
                if !self.8.keeps(row) {
                    assert(!self.keeps(8, row));
                }
            }
        }
        keep
    }

    fn compare(&self, column: usize, a: &R, b: &R) -> (result: Comparison) {
        if column == 0 {
            self.0.compare(a, b)
        } else if column == 1 {
            self.1.compare(a, b)
        } else if column == 2 {
            self.2.compare(a, b)
        } else if column == 3 {
            self.3.compare(a, b)
        } else if column == 4 {
            self.4.compare(a, b)
        } else if column == 5 {
            self.5.compare(a, b)
        } else if column == 6 {
            self.6.compare(a, b)
        } else if column == 7 {
            self.7.compare(a, b)
        } else {
            self.8.compare(a, b)
        }
    }
}

impl<
    A: TableColumn<R>,
    B: TableColumn<R>,
    C: TableColumn<R>,
    D: TableColumn<R>,
    E: TableColumn<R>,
    F: TableColumn<R>,
    G: TableColumn<R>,
    H: TableColumn<R>,
    I: TableColumn<R>,
    J: TableColumn<R>,
    R: Row,
> Columns<R> for (A, B, C, D, E, F, G, H, I, J) {
    open spec fn width(&self) -> nat {
        10
    }

    open spec fn name(&self, column: int) -> Seq<char> {
        if column == 0 {
            self.0.name()
        } else if column == 1 {
            self.1.name()
        } else if column == 2 {
            self.2.name()
        } else if column == 3 {
            self.3.name()
        } else if column == 4 {
            self.4.name()
        } else if column == 5 {
            self.5.name()
        } else if column == 6 {
            self.6.name()
        } else if column == 7 {
            self.7.name()
        } else if column == 8 {
            self.8.name()
        } else if column == 9 {
            self.9.name()
        } else {
            Seq::empty()
        }
    }

    open spec fn keeps(&self, column: int, row: &R) -> bool {
        if column == 0 {
            self.0.keeps(row)
        } else if column == 1 {
            self.1.keeps(row)
        } else if column == 2 {
            self.2.keeps(row)
        } else if column == 3 {
            self.3.keeps(row)
        } else if column == 4 {
            self.4.keeps(row)
        } else if column == 5 {
            self.5.keeps(row)
        } else if column == 6 {
            self.6.keeps(row)
        } else if column == 7 {
            self.7.keeps(row)
        } else if column == 8 {
            self.8.keeps(row)
        } else if column == 9 {
            self.9.keeps(row)
        } else {
            true
        }
    }

    open spec fn ranks(&self, column: int, a: &R, b: &R) -> Comparison {
        if column == 0 {
            self.0.ranks(a, b)
        } else if column == 1 {
            self.1.ranks(a, b)
        } else if column == 2 {
            self.2.ranks(a, b)
        } else if column == 3 {
            self.3.ranks(a, b)
        } else if column == 4 {
            self.4.ranks(a, b)
        } else if column == 5 {
            self.5.ranks(a, b)
        } else if column == 6 {
            self.6.ranks(a, b)
        } else if column == 7 {
            self.7.ranks(a, b)
        } else if column == 8 {
            self.8.ranks(a, b)
        } else if column == 9 {
            self.9.ranks(a, b)
        } else {
            Comparison::Equal
        }
    }

    fn column_names(&self) -> (names: Vec<String>) {
        let mut names: Vec<String> = Vec::new();
        names.push(self.0.column_name());
        names.push(self.1.column_name());
        names.push(self.2.column_name());
        names.push(self.3.column_name());
        names.push(self.4.column_name());
        names.push(self.5.column_name());
        names.push(self.6.column_name());
        names.push(self.7.column_name());
        names.push(self.8.column_name());
        names.push(self.9.column_name());
        names
    }

    fn filter(&self, row: &R) -> (keep: bool) {
        let keep = self.0.filter(row)
            && self.1.filter(row)
            && self.2.filter(row)
            && self.3.filter(row)
            && self.4.filter(row)
            && self.5.filter(row)
            && self.6.filter(row)
            && self.7.filter(row)
            && self.8.filter(row)
            && self.9.filter(row);
        proof {
            if keep {
                assert forall|column: int| 0 <= column < self.width() implies #[trigger] self.keeps(
                    column,
                    row,
                ) by {}
            } else {
                if !self.0.keeps(row) {
                    assert(!self.keeps(0, row));
                }
                if !self.1.keeps(row) {
                    assert(!self.keeps(1, row));
                }
                if !self.2.keeps(row) {
                    assert(!self.keeps(2, row));
                }
                if !self.3.keeps(row) {
                    assert(!self.keeps(3, row));
                }
                if !self.4.keeps(row) {
                    assert(!self.keeps(4, row));
                }
                if !self.5.keeps(row) {
                    assert(!self.keeps(5, row));
                }
                if !self.6.keeps(row) {
                    assert(!self.keeps(6, row));
                }
                if !self.7.keeps(row) {
                    assert(!self.keeps(7, row));
                }
                if !self.8.keeps(row) {
                    assert(!self.keeps(8, row));
                }
                if !self.9.keeps(row) {
                    assert(!self.keeps(9, row));
                }
            }
        }
        keep
    }

    fn compare(&self, column: usize, a: &R, b: &R) -> (result: Comparison) {
        if column == 0 {
            self.0.compare(a, b)
        } else if column == 1 {
            self.1.compare(a, b)
        } else if column == 2 {
            self.2.compare(a, b)
        } else if column == 3 {
            self.3.compare(a, b)
        } else if column == 4 {
            self.4.compare(a, b)
        } else if column == 5 {
            self.5.compare(a, b)
        } else if column == 6 {
            self.6.compare(a, b)
        } else if column == 7 {
            self.7.compare(a, b)
        } else if column == 8 {
            self.8.compare(a, b)
        } else {
            self.9.compare(a, b)
        }
    }
}

impl<
    A: TableColumn<R>,
    B: TableColumn<R>,
    C: TableColumn<R>,
    D: TableColumn<R>,
    E: TableColumn<R>,
    F: TableColumn<R>,
    G: TableColumn<R>,
    H: TableColumn<R>,
    I: TableColumn<R>,
    J: TableColumn<R>,
    K: TableColumn<R>,
    R: Row,
> Columns<R> for (A, B, C, D, E, F, G, H, I, J, K) {
    open spec fn width(&self) -> nat {
        11
    }

    open spec fn name(&self, column: int) -> Seq<char> {
        if column == 0 {
            self.0.name()
        } else if column == 1 {
            self.1.name()
        } else if column == 2 {
            self.2.name()
        } else if column == 3 {
            self.3.name()
        } else if column == 4 {
            self.4.name()
        } else if column == 5 {
            self.5.name()
        } else if column == 6 {
            self.6.name()
        } else if column == 7 {
            self.7.name()
        } else if column == 8 {
            self.8.name()
        } else if column == 9 {
            self.9.name()
        } else if column == 10 {
            self.10.name()
        } else {
            Seq::empty()
        }
    }

    open spec fn keeps(&self, column: int, row: &R) -> bool {
        if column == 0 {
            self.0.keeps(row)
        } else if column == 1 {
            self.1.keeps(row)
        } else if column == 2 {
            self.2.keeps(row)
        } else if column == 3 {
            self.3.keeps(row)
        } else if column == 4 {
            self.4.keeps(row)
        } else if column == 5 {
            self.5.keeps(row)
        } else if column == 6 {
            self.6.keeps(row)
        } else if column == 7 {
            self.7.keeps(row)
        } else if column == 8 {
            self.8.keeps(row)
        } else if column == 9 {
            self.9.keeps(row)
        } else if column == 10 {
            self.10.keeps(row)
        } else {
            true
        }
    }

    open spec fn ranks(&self, column: int, a: &R, b: &R) -> Comparison {
        if column == 0 {
            self.0.ranks(a, b)
        } else if column == 1 {
            self.1.ranks(a, b)
        } else if column == 2 {
            self.2.ranks(a, b)
        } else if column == 3 {
            self.3.ranks(a, b)
        } else if column == 4 {
            self.4.ranks(a, b)
        } else if column == 5 {
            self.5.ranks(a, b)
        } else if column == 6 {
            self.6.ranks(a, b)
        } else if column == 7 {
            self.7.ranks(a, b)
        } else if column == 8 {
            self.8.ranks(a, b)
        } else if column == 9 {
            self.9.ranks(a, b)
        } else if column == 10 {
            self.10.ranks(a, b)
        } else {
            Comparison::Equal
        }
    }

    fn column_names(&self) -> (names: Vec<String>) {
        let mut names: Vec<String> = Vec::new();
        names.push(self.0.column_name());
        names.push(self.1.column_name());
        names.push(self.2.column_name());
        names.push(self.3.column_name());
        names.push(self.4.column_name());
        names.push(self.5.column_name());
        names.push(self.6.column_name());
        names.push(self.7.column_name());
        names.push(self.8.column_name());
        names.push(self.9.column_name());
        names.push(self.10.column_name());
        names
    }

    fn filter(&self, row: &R) -> (keep: bool) {
        let keep = self.0.filter(row)
            && self.1.filter(row)
            && self.2.filter(row)
            && self.3.filter(row)
            && self.4.filter(row)
            && self.5.filter(row)
            && self.6.filter(row)
            && self.7.filter(row)
            && self.8.filter(row)
            && self.9.filter(row)
            && self.10.filter(row);
        proof {
            if keep {
                assert forall|column: int| 0 <= column < self.width() implies #[trigger] self.keeps(
                    column,
                    row,
                ) by {}
            } else {
                if !self.0.keeps(row) {
                    assert(!self.keeps(0, row));
                }
                if !self.1.keeps(row) {
                    assert(!self.keeps(1, row));
                }
                if !self.2.keeps(row) {
                    assert(!self.keeps(2, row));
                }
                if !self.3.keeps(row) {
                    assert(!self.keeps(3, row));
                }
                if !self.4.keeps(row) {
                    assert(!self.keeps(4, row));
                }
                if !self.5.keeps(row) {
                    assert(!self.keeps(5, row));
                }
                if !self.6.keeps(row) {
                    assert(!self.keeps(6, row));
                }
                if !self.7.keeps(row) {
                    assert(!self.keeps(7, row));
                }
                if !self.8.keeps(row) {
                    assert(!self.keeps(8, row));
                }
                if !self.9.keeps(row) {
                    assert(!self.keeps(9, row));
                }
                if !self.10.keeps(row) {
                    assert(!self.keeps(10, row));
                }
            }
        }
        keep
    }

    fn compare(&self, column: usize, a: &R, b: &R) -> (result: Comparison) {
        if column == 0 {
            self.0.compare(a, b)
        } else if column == 1 {
            self.1.compare(a, b)
        } else if column == 2 {
            self.2.compare(a, b)
        } else if column == 3 {
            self.3.compare(a, b)
        } else if column == 4 {
            self.4.compare(a, b)
        } else if column == 5 {
            self.5.compare(a, b)
        } else if column == 6 {
            self.6.compare(a, b)
        } else if column == 7 {
            self.7.compare(a, b)
        } else if column == 8 {
            self.8.compare(a, b)
        } else if column == 9 {
            self.9.compare(a, b)
        } else {
            self.10.compare(a, b)
        }
    }
}

impl<
    A: TableColumn<R>,
    B: TableColumn<R>,
    C: TableColumn<R>,
    D: TableColumn<R>,
    E: TableColumn<R>,
    F: TableColumn<R>,
    G: TableColumn<R>,
    H: TableColumn<R>,
    I: TableColumn<R>,
    J: TableColumn<R>,
    K: TableColumn<R>,
    L: TableColumn<R>,
    R: Row,
> Columns<R> for (A, B, C, D, E, F, G, H, I, J, K, L) {
    open spec fn width(&self) -> nat {
        12
    }

    open spec fn name(&self, column: int) -> Seq<char> {
        if column == 0 {
            self.0.name()
        } else if column == 1 {
            self.1.name()
        } else if column == 2 {
            self.2.name()
        } else if column == 3 {
            self.3.name()
        } else if column == 4 {
            self.4.name()
        } else if column == 5 {
            self.5.name()
        } else if column == 6 {
            self.6.name()
        } else if column == 7 {
            self.7.name()
        } else if column == 8 {
            self.8.name()
        } else if column == 9 {
            self.9.name()
        } else if column == 10 {
            self.10.name()
        } else if column == 11 {
            self.11.name()
        } else {
            Seq::empty()
        }
    }

    open spec fn keeps(&self, column: int, row: &R) -> bool {
        if column == 0 {
            self.0.keeps(row)
        } else if column == 1 {
            self.1.keeps(row)
        } else if column == 2 {
            self.2.keeps(row)
        } else if column == 3 {
            self.3.keeps(row)
        } else if column == 4 {
            self.4.keeps(row)
        } else if column == 5 {
            self.5.keeps(row)
        } else if column == 6 {
            self.6.keeps(row)
        } else if column == 7 {
            self.7.keeps(row)
        } else if column == 8 {
            self.8.keeps(row)
        } else if column == 9 {
            self.9.keeps(row)
        } else if column == 10 {
            self.10.keeps(row)
        } else if column == 11 {
            self.11.keeps(row)
        } else {
            true
        }
    }

    open spec fn ranks(&self, column: int, a: &R, b: &R) -> Comparison {
        if column == 0 {
            self.0.ranks(a, b)
        } else if column == 1 {
            self.1.ranks(a, b)
        } else if column == 2 {
            self.2.ranks(a, b)
        } else if column == 3 {
            self.3.ranks(a, b)
        } else if column == 4 {
            self.4.ranks(a, b)
        } else if column == 5 {
            self.5.ranks(a, b)
        } else if column == 6 {
            self.6.ranks(a, b)
        } else if column == 7 {
            self.7.ranks(a, b)
        } else if column == 8 {
            self.8.ranks(a, b)
        } else if column == 9 {
            self.9.ranks(a, b)
        } else if column == 10 {
            self.10.ranks(a, b)
        } else if column == 11 {
            self.11.ranks(a, b)
        } else {
            Comparison::Equal
        }
    }

    fn column_names(&self) -> (names: Vec<String>) {
        let mut names: Vec<String> = Vec::new();
        names.push(self.0.column_name());
        names.push(self.1.column_name());
        names.push(self.2.column_name());
        names.push(self.3.column_name());
        names.push(self.4.column_name());
        names.push(self.5.column_name());
        names.push(self.6.column_name());
        names.push(self.7.column_name());
        names.push(self.8.column_name());
        names.push(self.9.column_name());
        names.push(self.10.column_name());
        names.push(self.11.column_name());
        names
    }

    fn filter(&self, row: &R) -> (keep: bool) {
        let keep = self.0.filter(row)
            && self.1.filter(row)
            && self.2.filter(row)
            && self.3.filter(row)
            && self.4.filter(row)
            && self.5.filter(row)
            && self.6.filter(row)
            && self.7.filter(row)
            && self.8.filter(row)
            && self.9.filter(row)
            && self.10.filter(row)
            && self.11.filter(row);
        proof {
            if keep {
                assert forall|column: int| 0 <= column < self.width() implies #[trigger] self.keeps(
                    column,
                    row,
                ) by {}
            } else {
                if !self.0.keeps(row) {
                    assert(!self.keeps(0, row));
                }
                if !self.1.keeps(row) {
                    assert(!self.keeps(1, row));
                }
                if !self.2.keeps(row) {
                    assert(!self.keeps(2, row));
                }
                if !self.3.keeps(row) {
                    assert(!self.keeps(3, row));
                }
                if !self.4.keeps(row) {
                    assert(!self.keeps(4, row));
                }
                if !self.5.keeps(row) {
                    assert(!self.keeps(5, row));
                }
                if !self.6.keeps(row) {
                    assert(!self.keeps(6, row));
                }
                if !self.7.keeps(row) {
                    assert(!self.keeps(7, row));
                }
                if !self.8.keeps(row) {
                    assert(!self.keeps(8, row));
                }
                if !self.9.keeps(row) {
                    assert(!self.keeps(9, row));
                }
                if !self.10.keeps(row) {
                    assert(!self.keeps(10, row));
                }
                if !self.11.keeps(row) {
                    assert(!self.keeps(11, row));
                }
            }
        }
        keep
    }

    fn compare(&self, column: usize, a: &R, b: &R) -> (result: Comparison) {
        if column == 0 {
            self.0.compare(a, b)
        } else if column == 1 {
            self.1.compare(a, b)
        } else if column == 2 {
            self.2.compare(a, b)
        } else if column == 3 {
            self.3.compare(a, b)
        } else if column == 4 {
            self.4.compare(a, b)
        } else if column == 5 {
            self.5.compare(a, b)
        } else if column == 6 {
            self.6.compare(a, b)
        } else if column == 7 {
            self.7.compare(a, b)
        } else if column == 8 {
            self.8.compare(a, b)
        } else if column == 9 {
            self.9.compare(a, b)
        } else if column == 10 {
            self.10.compare(a, b)
        } else {
            self.11.compare(a, b)
        }
    }
}

} // verus!
