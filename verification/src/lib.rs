//! Table state engine: column order and visibility, multi-key sort state,
//! the filtered and sorted row projection, and the export plan.
//!
//! Everything here works on plain values. A front end owns the reactive
//! cells and the rendering; it calls into this crate on every gesture and
//! on every read of the projection.

pub mod column;
pub mod column_order;
pub mod columns;
pub mod context;
pub mod doc_examples;
pub mod export;
pub mod merging;
pub mod projection;
pub mod row;
pub mod sort;

pub use crate::column::{Comparison, TableColumn};
pub use crate::column_order::ColumnOrder;
pub use crate::columns::Columns;
pub use crate::context::{
    CellData, ColumnContext, HeaderData, RowData, TableContext, TableContextData, TableData,
};
pub use crate::export::{ExportStep, SerializableColumn, SerializableColumns};
pub use crate::row::{GetRowData, Row};
pub use crate::sort::{Sort, SortDirection, SortGesture, SortInfo, SortRecord};
