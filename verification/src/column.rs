//! What a table asks of one column: a name, a filter and a sort key.

use crate::row::Row;
use std::cmp::Ordering;
use vstd::prelude::*;

verus! {

/// How one row stands to another under a column's sort key.
#[derive(Clone, Copy, PartialEq, Eq, Debug, Structural)]
pub enum Comparison {
    /// The first row sorts before the second.
    Less,
    /// The column does not tell the two rows apart.
    Equal,
    /// The first row sorts after the second.
    Greater,
}

impl Comparison {
    /// The same result seen from the other row.
    pub open spec fn reversed(self) -> Comparison {
        match self {
            Comparison::Less => Comparison::Greater,
            Comparison::Equal => Comparison::Equal,
            Comparison::Greater => Comparison::Less,
        }
    }

    /// The same result seen from the other row.
    pub fn reverse(self) -> (result: Comparison)
        ensures
            result == self.reversed(),
    {
        match self {
            Comparison::Less => Comparison::Greater,
            Comparison::Equal => Comparison::Equal,
            Comparison::Greater => Comparison::Less,
        }
    }

    /// Whether the first row sorts before the second.
    pub fn is_less(self) -> (less: bool)
        ensures
            less == (self == Comparison::Less),
    {
        match self {
            Comparison::Less => true,
            _ => false,
        }
    }

    /// The comparison that a standard ordering stands for.
    pub fn from_ordering(ordering: Ordering) -> (result: Comparison)
        ensures
            result == match ordering {
                Ordering::Less => Comparison::Less,
                Ordering::Equal => Comparison::Equal,
                Ordering::Greater => Comparison::Greater,
            },
    {
        match ordering {
            Ordering::Less => Comparison::Less,
            Ordering::Equal => Comparison::Equal,
            Ordering::Greater => Comparison::Greater,
        }
    }

    /// The standard ordering that this comparison stands for.
    pub fn to_ordering(self) -> (ordering: Ordering)
        ensures
            ordering == match self {
                Comparison::Less => Ordering::Less,
                Comparison::Equal => Ordering::Equal,
                Comparison::Greater => Ordering::Greater,
            },
    {
        match self {
            Comparison::Less => Ordering::Less,
            Comparison::Equal => Ordering::Equal,
            Comparison::Greater => Ordering::Greater,
        }
    }
}

/// Describes how a single column filters and sorts rows.
///
/// The spec functions say what the column is called and what it decides;
/// `column_name`, `filter` and `compare` compute it. Unless a column says
/// otherwise, it has the empty name, keeps every row and finds every two
/// rows equal.
///
/// Everything that this crate proves of a table is proved from the
/// contracts of these three methods. Verus holds a column written in
/// verified code to them. Of a column written in plain Rust nothing is
/// checked: for it the proofs speak of a column that computes what its
/// spec functions say.
pub trait TableColumn<R: Row>: Clone + PartialEq + 'static {
    /// The name of the column.
    open spec fn name(&self) -> Seq<char> {
        Seq::empty()
    }

    /// Whether the column keeps `row` in the table.
    open spec fn keeps(&self, row: &R) -> bool {
        true
    }

    /// How `a` stands to `b` under this column's sort key.
    open spec fn ranks(&self, a: &R, b: &R) -> Comparison {
        Comparison::Equal
    }

    /// The unique name of this column.
    fn column_name(&self) -> (name: String)
        ensures
            name@ == self.name(),
    ;

    /// Whether `row` should be displayed.
    fn filter(&self, row: &R) -> (keep: bool)
        ensures
            keep == self.keeps(row),
    ;

    /// Compares two rows for sorting.
    fn compare(&self, a: &R, b: &R) -> (result: Comparison)
        ensures
            result == self.ranks(a, b),
    ;
}

} // verus!
