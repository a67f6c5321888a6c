use dioxus_tabular::column::{Comparison, TableColumn};
use dioxus_tabular::context::TableContext;
use dioxus_tabular::export::{
    next_step, plan_export, ExportStep, SerializableColumn, SerializableColumns,
};
use dioxus_tabular::row::Row;
use dioxus_tabular::sort::{Sort, SortDirection, SortGesture};
use serde::{Serialize, Serializer};

#[derive(Debug, Clone, PartialEq)]
struct Person {
    name: String,
    age: u32,
}

impl Row for Person {
    fn key(&self) -> String {
        format!("{}_{}", self.name, self.age)
    }
}

#[derive(Debug, Clone, Copy, PartialEq)]
enum Priority {
    High,
}

impl Serialize for Priority {
    fn serialize<S: Serializer>(&self, serializer: S) -> Result<S::Ok, S::Error> {
        match self {
            Priority::High => serializer.serialize_unit_variant("Priority", 0, "High"),
        }
    }
}

#[derive(Clone, PartialEq)]
struct NameColumn;

impl TableColumn<Person> for NameColumn {
    fn column_name(&self) -> String {
        "Name".to_string()
    }

    fn filter(&self, _row: &Person) -> bool {
        true
    }

    fn compare(&self, a: &Person, b: &Person) -> Comparison {
        Comparison::from_ordering(a.name.cmp(&b.name))
    }
}

impl SerializableColumn<Person> for NameColumn {
    fn header(&self) -> String {
        self.column_name()
    }
}

impl SerializeCell for NameColumn {
    fn serialize_cell(&self, row: &Person) -> impl Serialize + '_ {
        row.name.clone()
    }
}

#[derive(Clone, PartialEq)]
struct AgeColumn;

impl TableColumn<Person> for AgeColumn {
    fn column_name(&self) -> String {
        "Age".to_string()
    }

    fn filter(&self, _row: &Person) -> bool {
        true
    }

    fn compare(&self, a: &Person, b: &Person) -> Comparison {
        Comparison::from_ordering(a.age.cmp(&b.age))
    }
}

impl SerializableColumn<Person> for AgeColumn {
    fn header(&self) -> String {
        self.column_name()
    }
}

impl SerializeCell for AgeColumn {
    fn serialize_cell(&self, row: &Person) -> impl Serialize + '_ {
        row.age
    }
}

#[derive(Clone, PartialEq)]
struct PriorityColumn;

impl TableColumn<Person> for PriorityColumn {
    fn column_name(&self) -> String {
        "Priority".to_string()
    }

    fn filter(&self, _row: &Person) -> bool {
        true
    }

    fn compare(&self, _a: &Person, _b: &Person) -> Comparison {
        Comparison::Equal
    }
}

impl SerializableColumn<Person> for PriorityColumn {
    fn header(&self) -> String {
        "Custom Priority Header".to_string()
    }
}

impl SerializeCell for PriorityColumn {
    fn serialize_cell(&self, _row: &Person) -> impl Serialize + '_ {
        Priority::High
    }
}

/// What a column hands to the exporter for one row.
trait SerializeCell {
    fn serialize_cell(&self, row: &Person) -> impl Serialize + '_;
}

/// The same for a list of columns, by column index.
trait SerializeCells {
    fn serialize_cell(
        &self,
        column: usize,
        row_index: usize,
        col_index: usize,
        row: &Person,
        exporter: &mut MockExporter,
    ) -> Result<(), ()>;
}

impl<A: SerializeCell, B: SerializeCell> SerializeCells for (A, B) {
    fn serialize_cell(
        &self,
        column: usize,
        row_index: usize,
        col_index: usize,
        row: &Person,
        exporter: &mut MockExporter,
    ) -> Result<(), ()> {
        match column {
            0 => exporter.serialize_cell(row_index, col_index, self.0.serialize_cell(row)),
            1 => exporter.serialize_cell(row_index, col_index, self.1.serialize_cell(row)),
            _ => panic!("no column {column}"),
        }
    }
}

impl<A: SerializeCell, B: SerializeCell, C: SerializeCell> SerializeCells for (A, B, C) {
    fn serialize_cell(
        &self,
        column: usize,
        row_index: usize,
        col_index: usize,
        row: &Person,
        exporter: &mut MockExporter,
    ) -> Result<(), ()> {
        match column {
            0 => exporter.serialize_cell(row_index, col_index, self.0.serialize_cell(row)),
            1 => exporter.serialize_cell(row_index, col_index, self.1.serialize_cell(row)),
            2 => exporter.serialize_cell(row_index, col_index, self.2.serialize_cell(row)),
            _ => panic!("no column {column}"),
        }
    }
}

struct MockExporter {
    headers: Vec<(usize, String)>,
    cells: Vec<(usize, usize, String)>,
    /// The number of calls after which every call fails, if any.
    fails_after: Option<usize>,
}

impl MockExporter {
    fn new() -> Self {
        Self {
            headers: Vec::new(),
            cells: Vec::new(),
            fails_after: None,
        }
    }

    fn calls(&self) -> usize {
        self.headers.len() + self.cells.len()
    }

    fn serialize_header(&mut self, col: usize, header: &str) -> Result<(), ()> {
        if self.fails_after == Some(self.calls()) {
            return Err(());
        }
        self.headers.push((col, header.to_string()));
        Ok(())
    }

    fn serialize_cell<'a>(
        &mut self,
        row: usize,
        col: usize,
        cell: impl Serialize + 'a,
    ) -> Result<(), ()> {
        if self.fails_after == Some(self.calls()) {
            return Err(());
        }
        let json = serde_json::to_string(&cell).unwrap();
        self.cells.push((row, col, json));
        Ok(())
    }
}

/// Runs the export plan of the table against the exporter, stopping at the
/// first failure.
fn serialize<C: SerializableColumns<Person> + SerializeCells>(
    context: &TableContext<C>,
    rows: &Vec<Person>,
    exporter: &mut MockExporter,
) -> Result<(), ()> {
    let headers = context.columns.serialize_headers();
    let plan = context.export_plan(rows);
    let mut done = 0;
    let mut outcome = Ok(());
    while let Some(step) = next_step(&plan, done, outcome.is_err()) {
        outcome = match step {
            ExportStep::Header { position, column } => {
                exporter.serialize_header(position, &headers[column])
            }
            ExportStep::Cell {
                row_position,
                column_position,
                row,
                column,
            } => context.columns.serialize_cell(
                column,
                row_position,
                column_position,
                &rows[row],
                exporter,
            ),
        };
        done += 1;
    }
    outcome
}

fn person(name: &str, age: u32) -> Person {
    Person {
        name: name.to_string(),
        age,
    }
}

#[test]
fn test_export_empty_table() {
    let context = TableContext::use_table_context((NameColumn, AgeColumn));
    let rows = Vec::<Person>::new();

    let mut exporter = MockExporter::new();
    serialize(&context, &rows, &mut exporter).unwrap();

    assert_eq!(
        exporter.headers.as_slice(),
        &[(0, "Name".to_string()), (1, "Age".to_string())]
    );
    assert_eq!(exporter.cells.as_slice(), &[]);
}

#[test]
fn test_export_multiple_rows_and_columns() {
    let context = TableContext::use_table_context((NameColumn, AgeColumn));
    let rows = vec![person("Alice", 30), person("Bob", 25), person("Charlie", 35)];

    let mut exporter = MockExporter::new();
    serialize(&context, &rows, &mut exporter).unwrap();

    assert_eq!(
        exporter.headers.as_slice(),
        &[(0, "Name".to_string()), (1, "Age".to_string())]
    );
    assert_eq!(
        exporter.cells.as_slice(),
        &[
            (0, 0, "\"Alice\"".to_string()),
            (0, 1, "30".to_string()),
            (1, 0, "\"Bob\"".to_string()),
            (1, 1, "25".to_string()),
            (2, 0, "\"Charlie\"".to_string()),
            (2, 1, "35".to_string()),
        ]
    );
}

#[test]
fn test_export_with_custom_header() {
    let context = TableContext::use_table_context((NameColumn, AgeColumn, PriorityColumn));
    let rows = vec![person("Alice", 30)];

    let mut exporter = MockExporter::new();
    serialize(&context, &rows, &mut exporter).unwrap();

    // PriorityColumn has custom header
    assert_eq!(
        exporter.headers.as_slice(),
        &[
            (0, "Name".to_string()),
            (1, "Age".to_string()),
            (2, "Custom Priority Header".to_string()) // PriorityColumn has custom header
        ]
    );
    assert_eq!(
        exporter.cells.as_slice(),
        &[
            (0, 0, "\"Alice\"".to_string()),
            (0, 1, "30".to_string()),
            (0, 2, "\"High\"".to_string()),
        ]
    );
}

#[test]
fn test_export_with_column_reordering() {
    let mut context = TableContext::use_table_context((NameColumn, AgeColumn));
    let rows = vec![person("Alice", 30)];

    // Swap columns: Age should come before Name
    context.data.swap_columns(0, 1);

    let mut exporter = MockExporter::new();
    serialize(&context, &rows, &mut exporter).unwrap();

    // Headers should be in reordered position
    assert_eq!(
        exporter.headers.as_slice(),
        &[(0, "Age".to_string()), (1, "Name".to_string())]
    );
    // Cells should follow the reordered columns
    assert_eq!(
        exporter.cells.as_slice(),
        &[(0, 0, "30".to_string()), (0, 1, "\"Alice\"".to_string())]
    );
}

#[test]
fn test_export_with_hidden_columns() {
    let mut context = TableContext::use_table_context((NameColumn, AgeColumn));
    let rows = vec![person("Alice", 30)];

    // Hide the Age column (index 1)
    context.data.hide_column(1);

    let mut exporter = MockExporter::new();
    serialize(&context, &rows, &mut exporter).unwrap();

    // Only Name column should be exported
    assert_eq!(exporter.headers.as_slice(), &[(0, "Name".to_string())]);
    assert_eq!(
        exporter.cells.as_slice(),
        &[(0, 0, "\"Alice\"".to_string())]
    );
}

#[test]
fn test_export_with_sorted_rows() {
    let mut context = TableContext::use_table_context((NameColumn, AgeColumn));
    let rows = vec![person("Charlie", 35), person("Alice", 30), person("Bob", 25)];

    // Sort by age (column 1) ascending
    context.data.request_sort(
        1,
        SortGesture::AddFirst(Sort {
            direction: SortDirection::Ascending,
        }),
    );

    let mut exporter = MockExporter::new();
    serialize(&context, &rows, &mut exporter).unwrap();

    assert_eq!(
        exporter.headers.as_slice(),
        &[(0, "Name".to_string()), (1, "Age".to_string())]
    );
    // Should be sorted: Bob (25), Alice (30), Charlie (35)
    assert_eq!(
        exporter.cells.as_slice(),
        &[
            (0, 0, "\"Bob\"".to_string()),
            (0, 1, "25".to_string()),
            (1, 0, "\"Alice\"".to_string()),
            (1, 1, "30".to_string()),
            (2, 0, "\"Charlie\"".to_string()),
            (2, 1, "35".to_string()),
        ]
    );
}

#[test]
fn test_export_with_all_columns_hidden() {
    let mut context = TableContext::use_table_context((NameColumn, AgeColumn));
    let rows = vec![person("Alice", 30)];

    // Hide all columns
    context.data.hide_column(0);
    context.data.hide_column(1);

    let mut exporter = MockExporter::new();
    serialize(&context, &rows, &mut exporter).unwrap();

    // No headers or cells should be exported
    assert_eq!(exporter.headers.as_slice(), &[]);
    assert_eq!(exporter.cells.as_slice(), &[]);
    assert_eq!(context.export_plan(&rows), Vec::<ExportStep>::new());
}

#[test]
fn test_export_with_combined_features() {
    let mut context = TableContext::use_table_context((NameColumn, AgeColumn, PriorityColumn));
    let rows = vec![person("Charlie", 35), person("Alice", 30), person("Bob", 25)];

    // 1. Hide Priority column
    context.data.hide_column(2);
    // 2. Swap Name and Age columns
    context.data.swap_columns(0, 1);
    // 3. Sort by age ascending (Age is column 1, wherever it is displayed)
    context.data.request_sort(
        1,
        SortGesture::AddFirst(Sort {
            direction: SortDirection::Ascending,
        }),
    );

    let mut exporter = MockExporter::new();
    serialize(&context, &rows, &mut exporter).unwrap();

    // Only Age and Name columns (reordered), sorted by Age
    assert_eq!(
        exporter.headers.as_slice(),
        &[(0, "Age".to_string()), (1, "Name".to_string())]
    );
    assert_eq!(
        exporter.cells.as_slice(),
        &[
            (0, 0, "25".to_string()),
            (0, 1, "\"Bob\"".to_string()),
            (1, 0, "30".to_string()),
            (1, 1, "\"Alice\"".to_string()),
            (2, 0, "35".to_string()),
            (2, 1, "\"Charlie\"".to_string()),
        ]
    );
}

#[test]
fn export_of_a_hidden_sorted_column_leaves_it_out() {
    let mut context = TableContext::use_table_context((NameColumn, AgeColumn));
    let rows = vec![person("Charlie", 35), person("Bob", 25), person("Alice", 30)];

    context.data.hide_column(1);
    context.data.request_sort(
        1,
        SortGesture::AddFirst(Sort {
            direction: SortDirection::Ascending,
        }),
    );

    let keys: Vec<String> = context.headers().iter().map(|h| h.key()).collect();
    assert_eq!(keys, vec!["Name"]);

    let mut exporter = MockExporter::new();
    serialize(&context, &rows, &mut exporter).unwrap();
    assert_eq!(exporter.headers.as_slice(), &[(0, "Name".to_string())]);
    assert_eq!(
        exporter.cells.as_slice(),
        &[
            (0, 0, "\"Bob\"".to_string()),
            (1, 0, "\"Alice\"".to_string()),
            (2, 0, "\"Charlie\"".to_string()),
        ]
    );
}

#[test]
fn plain_export_keeps_column_and_row_order() {
    let context = TableContext::use_table_context((NameColumn, AgeColumn));
    let rows = vec![person("Charlie", 35), person("Bob", 25)];
    assert_eq!(
        context.export_plan(&rows),
        vec![
            ExportStep::Header {
                position: 0,
                column: 0
            },
            ExportStep::Header {
                position: 1,
                column: 1
            },
            ExportStep::Cell {
                row_position: 0,
                column_position: 0,
                row: 0,
                column: 0
            },
            ExportStep::Cell {
                row_position: 0,
                column_position: 1,
                row: 0,
                column: 1
            },
            ExportStep::Cell {
                row_position: 1,
                column_position: 0,
                row: 1,
                column: 0
            },
            ExportStep::Cell {
                row_position: 1,
                column_position: 1,
                row: 1,
                column: 1
            },
        ]
    );
    let data = context.table_data(rows);
    assert_eq!(data.export_plan().len(), 6);
}

#[test]
fn plan_numbers_positions_not_indices() {
    assert_eq!(
        plan_export(&vec![7, 3], &vec![4]),
        vec![
            ExportStep::Header {
                position: 0,
                column: 4
            },
            ExportStep::Cell {
                row_position: 0,
                column_position: 0,
                row: 7,
                column: 4
            },
            ExportStep::Cell {
                row_position: 1,
                column_position: 0,
                row: 3,
                column: 4
            },
        ]
    );
    assert_eq!(plan_export(&vec![7, 3], &Vec::new()), Vec::<ExportStep>::new());
}

#[test]
fn a_failure_ends_the_export_at_once() {
    let context = TableContext::use_table_context((NameColumn, AgeColumn));
    let rows = vec![person("Alice", 30), person("Bob", 25)];

    let mut exporter = MockExporter::new();
    exporter.fails_after = Some(3);
    assert_eq!(serialize(&context, &rows, &mut exporter), Err(()));
    assert_eq!(exporter.headers.len(), 2);
    assert_eq!(exporter.cells.as_slice(), &[(0, 0, "\"Alice\"".to_string())]);

    let plan = context.export_plan(&rows);
    assert_eq!(next_step(&plan, 0, false), Some(plan[0]));
    assert_eq!(next_step(&plan, 5, false), Some(plan[5]));
    assert_eq!(next_step(&plan, 6, false), None);
    assert_eq!(next_step(&plan, 1, true), None);
}

#[test]
fn headers_are_listed_by_column_index() {
    assert_eq!(NameColumn.header(), "Name");
    assert_eq!((AgeColumn,).serialize_headers(), vec!["Age"]);
    assert_eq!(
        (AgeColumn, PriorityColumn, NameColumn).serialize_headers(),
        vec!["Age", "Custom Priority Header", "Name"]
    );
}
