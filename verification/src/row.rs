//! What a table asks of its rows.

use vstd::prelude::*;

verus! {

/// Defines the unique key and identity of each table row.
///
/// The spec function `id` says what the key is; `key` computes it. Unless a
/// row type says otherwise, its key is the empty text.
pub trait Row: PartialEq + Clone + 'static {
    /// The key of the row.
    open spec fn id(&self) -> Seq<char> {
        Seq::empty()
    }

    /// A key that is unique within the table and does not change while the
    /// table lives.
    fn key(&self) -> (key: String)
        ensures
            key@ == self.id(),
    ;
}

/// Typed access to one piece of a row's data.
pub trait GetRowData<T> {
    /// The data of type `T` that this row holds.
    fn get(&self) -> T;
}

} // verus!
