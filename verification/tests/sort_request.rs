use dioxus_tabular::context::TableContextData;
use dioxus_tabular::sort::{Sort, SortDirection, SortGesture, SortInfo};

/// Helper to create a Sort with Ascending direction
fn ascending() -> Sort {
    Sort {
        direction: SortDirection::Ascending,
    }
}

/// Helper to create a Sort with Descending direction
fn descending() -> Sort {
    Sort {
        direction: SortDirection::Descending,
    }
}

/// The state of a table with three columns and nothing sorted.
fn three_columns() -> TableContextData {
    TableContextData::new(vec![
        "Column 0".to_string(),
        "Column 1".to_string(),
        "Column 2".to_string(),
    ])
}

#[test]
fn test_cancel_on_empty_list() {
    let mut context = three_columns();

    // Cancel on empty list
    context.request_sort(0, SortGesture::Cancel);

    // Verify list is still empty
    assert_eq!(context.sort_records().len(), 0);
}

#[test]
fn test_cancel_removes_existing_sort() {
    let mut context = three_columns();

    // Setup: Add a sort on column 0
    context.request_sort(0, SortGesture::AddFirst(ascending()));
    assert_eq!(context.sort_records().len(), 1);

    // Cancel the sort on column 0
    context.request_sort(0, SortGesture::Cancel);

    // Verify it's removed
    assert_eq!(context.sort_records().len(), 0);
}

#[test]
fn test_cancel_on_column_without_sort() {
    let mut context = three_columns();

    // Setup: Add a sort on column 1
    context.request_sort(1, SortGesture::AddFirst(ascending()));
    assert_eq!(context.sort_records().len(), 1);

    // Cancel on column 0 (which has no sort)
    context.request_sort(0, SortGesture::Cancel);

    // Verify the list is unchanged
    let sorts = context.sort_records();
    assert_eq!(sorts.len(), 1);
    assert_eq!(sorts[0].column, 1);
}

#[test]
fn test_cancel_preserves_other_column_sorts() {
    let mut context = three_columns();

    // Setup: Add sorts on columns 0, 1, 2
    context.request_sort(0, SortGesture::AddFirst(ascending()));
    context.request_sort(1, SortGesture::AddLast(descending()));
    context.request_sort(2, SortGesture::AddLast(ascending()));
    assert_eq!(context.sort_records().len(), 3);

    // Cancel column 1
    context.request_sort(1, SortGesture::Cancel);

    // Verify only column 1 is removed, others preserved
    let sorts = context.sort_records();
    assert_eq!(sorts.len(), 2);
    assert_eq!(sorts[0].column, 0);
    assert_eq!(sorts[1].column, 2);
}

#[test]
fn test_add_first_ascending_on_empty_list() {
    let mut context = three_columns();

    // Add first sort with ascending direction
    context.request_sort(0, SortGesture::AddFirst(ascending()));

    // Verify added at position 0
    let sorts = context.sort_records();
    assert_eq!(sorts.len(), 1);
    assert_eq!(sorts[0].column, 0);
    assert_eq!(sorts[0].sort.direction, SortDirection::Ascending);
}

#[test]
fn test_add_first_replaces_existing_sort_on_same_column() {
    let mut context = three_columns();

    // Setup: Add ascending sort on column 0
    context.request_sort(0, SortGesture::AddFirst(ascending()));
    assert_eq!(context.sort_records().len(), 1);

    // Replace with descending sort on same column
    context.request_sort(0, SortGesture::AddFirst(descending()));

    // Verify replaced (still only 1 sort)
    let sorts = context.sort_records();
    assert_eq!(sorts.len(), 1);
    assert_eq!(sorts[0].column, 0);
    assert_eq!(sorts[0].sort.direction, SortDirection::Descending);
}

#[test]
fn test_add_first_with_multiple_columns_sorted() {
    let mut context = three_columns();

    // Setup: Add sorts on columns 1 and 2
    context.request_sort(1, SortGesture::AddFirst(ascending()));
    context.request_sort(2, SortGesture::AddLast(descending()));

    // Add first sort on column 0
    context.request_sort(0, SortGesture::AddFirst(ascending()));

    // Verify column 0 is first, others shifted
    let sorts = context.sort_records();
    assert_eq!(sorts.len(), 3);
    assert_eq!(sorts[0].column, 0);
    assert_eq!(sorts[1].column, 1);
    assert_eq!(sorts[2].column, 2);
}

#[test]
fn test_add_first_moves_column_from_last_to_first() {
    let mut context = three_columns();

    // Setup: Add sorts on columns 0, 1, 2
    context.request_sort(0, SortGesture::AddFirst(ascending()));
    context.request_sort(1, SortGesture::AddLast(ascending()));
    context.request_sort(2, SortGesture::AddLast(ascending()));

    // Move column 2 to first
    context.request_sort(2, SortGesture::AddFirst(descending()));

    // Verify column 2 is now first
    let sorts = context.sort_records();
    assert_eq!(sorts.len(), 3);
    assert_eq!(sorts[0].column, 2);
    assert_eq!(sorts[0].sort.direction, SortDirection::Descending);
    assert_eq!(sorts[1].column, 0);
    assert_eq!(sorts[2].column, 1);
}

#[test]
fn test_add_last_ascending_on_empty_list() {
    let mut context = three_columns();

    // Add last sort with ascending direction
    context.request_sort(0, SortGesture::AddLast(ascending()));

    // Verify added
    let sorts = context.sort_records();
    assert_eq!(sorts.len(), 1);
    assert_eq!(sorts[0].column, 0);
    assert_eq!(sorts[0].sort.direction, SortDirection::Ascending);
}

#[test]
fn test_add_last_replaces_existing_sort_on_same_column() {
    let mut context = three_columns();

    // Setup: Add ascending sort on column 0
    context.request_sort(0, SortGesture::AddLast(ascending()));
    assert_eq!(context.sort_records().len(), 1);

    // Replace with descending sort on same column
    context.request_sort(0, SortGesture::AddLast(descending()));

    // Verify replaced (still only 1 sort)
    let sorts = context.sort_records();
    assert_eq!(sorts.len(), 1);
    assert_eq!(sorts[0].column, 0);
    assert_eq!(sorts[0].sort.direction, SortDirection::Descending);
}

#[test]
fn test_add_last_with_multiple_columns_sorted() {
    let mut context = three_columns();

    // Setup: Add sorts on columns 0 and 1
    context.request_sort(0, SortGesture::AddFirst(ascending()));
    context.request_sort(1, SortGesture::AddLast(ascending()));

    // Add last sort on column 2
    context.request_sort(2, SortGesture::AddLast(descending()));

    // Verify column 2 is last
    let sorts = context.sort_records();
    assert_eq!(sorts.len(), 3);
    assert_eq!(sorts[0].column, 0);
    assert_eq!(sorts[1].column, 1);
    assert_eq!(sorts[2].column, 2);
    assert_eq!(sorts[2].sort.direction, SortDirection::Descending);
}

#[test]
fn test_add_last_moves_column_from_first_to_last() {
    let mut context = three_columns();

    // Setup: Add sorts on columns 0, 1, 2
    context.request_sort(0, SortGesture::AddFirst(ascending()));
    context.request_sort(1, SortGesture::AddLast(ascending()));
    context.request_sort(2, SortGesture::AddLast(ascending()));

    // Move column 0 to last
    context.request_sort(0, SortGesture::AddLast(descending()));

    // Verify column 0 is now last
    let sorts = context.sort_records();
    assert_eq!(sorts.len(), 3);
    assert_eq!(sorts[0].column, 1);
    assert_eq!(sorts[1].column, 2);
    assert_eq!(sorts[2].column, 0);
    assert_eq!(sorts[2].sort.direction, SortDirection::Descending);
}

#[test]
fn toggle_flips_the_direction_in_place() {
    let mut context = three_columns();
    context.request_sort(0, SortGesture::AddLast(ascending()));
    context.request_sort(1, SortGesture::AddLast(ascending()));

    context.request_sort(0, SortGesture::Toggle);

    let sorts = context.sort_records();
    assert_eq!(sorts.len(), 2);
    assert_eq!(sorts[0].column, 0);
    assert_eq!(sorts[0].sort.direction, SortDirection::Descending);
    assert_eq!(sorts[1].column, 1);
    assert_eq!(sorts[1].sort.direction, SortDirection::Ascending);

    context.request_sort(0, SortGesture::Toggle);
    assert_eq!(
        context.sort_records()[0].sort.direction,
        SortDirection::Ascending
    );
}

#[test]
fn toggle_on_an_unsorted_column_creates_no_record() {
    let mut context = three_columns();
    context.request_sort(2, SortGesture::Toggle);
    assert_eq!(context.sort_records().len(), 0);

    context.request_sort(1, SortGesture::AddFirst(descending()));
    context.request_sort(2, SortGesture::Toggle);
    let sorts = context.sort_records();
    assert_eq!(sorts.len(), 1);
    assert_eq!(sorts[0].column, 1);
    assert_eq!(sorts[0].sort.direction, SortDirection::Descending);
}

#[test]
fn sort_info_gives_priority_and_direction() {
    let mut context = three_columns();
    assert_eq!(context.sort_info(0), None);

    context.request_sort(0, SortGesture::AddFirst(ascending()));
    context.request_sort(2, SortGesture::AddFirst(descending()));

    assert_eq!(
        context.sort_info(2),
        Some(SortInfo {
            priority: 0,
            direction: SortDirection::Descending
        })
    );
    assert_eq!(
        context.sort_info(0),
        Some(SortInfo {
            priority: 1,
            direction: SortDirection::Ascending
        })
    );
    assert_eq!(context.sort_info(1), None);
}

#[test]
fn add_first_leaves_later_records_where_they_stand() {
    let mut context = three_columns();
    context.request_sort(0, SortGesture::AddLast(ascending()));
    context.request_sort(1, SortGesture::AddLast(ascending()));
    context.request_sort(2, SortGesture::AddLast(ascending()));

    // Column 1 moves to the front: column 0 moves down, column 2 stays.
    context.request_sort(1, SortGesture::AddFirst(ascending()));

    assert_eq!(context.sort_info(1).map(|info| info.priority), Some(0));
    assert_eq!(context.sort_info(0).map(|info| info.priority), Some(1));
    assert_eq!(context.sort_info(2).map(|info| info.priority), Some(2));
}

#[test]
fn column_context_reaches_the_table_state() {
    let mut context = three_columns();
    {
        let mut column = context.column_context(1);
        column.request_sort(SortGesture::AddFirst(descending()));
        assert_eq!(
            column.sort_info(),
            Some(SortInfo {
                priority: 0,
                direction: SortDirection::Descending
            })
        );
        column.hide_column();
        assert!(!column.is_visible());
        assert_eq!(column.position(), None);
    }
    assert_eq!(context.get_column_order(), vec![0, 2]);
    assert_eq!(context.sort_records().len(), 1);
    {
        let mut column = context.column_context(1);
        column.show(Some(0));
        assert_eq!(column.position(), Some(0));
        column.move_backward();
        column.move_backward();
        column.move_forward();
        column.swap_with(0);
    }
    assert_eq!(context.get_column_order(), vec![1, 0, 2]);
    {
        let mut column = context.column_context(2);
        column.move_to(0);
    }
    assert_eq!(context.get_column_order(), vec![2, 1, 0]);
    context.column_context(0).reset_order();
    assert_eq!(context.get_column_order(), vec![0, 1, 2]);
    assert_eq!(context.get_column_name(2), "Column 2");
}

#[test]
fn a_new_table_has_nothing_sorted_and_everything_visible() {
    let context = three_columns();
    assert_eq!(context.sort_records().len(), 0);
    assert_eq!(context.get_column_order(), vec![0, 1, 2]);
    assert_eq!(context.total_columns(), 3);
    assert_eq!(context.get_column_name(0), "Column 0");
    assert!(context.is_column_visible(2));
    assert_eq!(context.column_position(1), Some(1));
    assert!(context.has_unique_names());
    assert!(context.sorts_within(0));
}

#[test]
fn repeated_column_names_are_found() {
    let twice = TableContextData::new(vec![
        "a".to_string(),
        "b".to_string(),
        "a".to_string(),
    ]);
    assert!(!twice.has_unique_names());
    let none = TableContextData::new(Vec::new());
    assert!(none.has_unique_names());
    let one = TableContextData::new(vec!["a".to_string()]);
    assert!(one.has_unique_names());
}

#[test]
fn sorts_within_counts_the_columns() {
    let mut context = three_columns();
    context.request_sort(1, SortGesture::AddLast(ascending()));
    assert!(!context.sorts_within(1));
    assert!(context.sorts_within(2));
    assert!(context.sorts_within(3));
}

#[test]
fn order_changes_leave_the_sort_records_alone() {
    let mut context = three_columns();
    context.request_sort(2, SortGesture::AddFirst(descending()));
    context.swap_columns(0, 2);
    context.hide_column(2);
    context.move_column_forward(1);
    context.move_column_backward(1);
    context.move_column_to(0, 0);
    assert_eq!(context.get_column_order(), vec![0, 1]);
    context.show_column(2, Some(1));
    assert_eq!(context.get_column_order(), vec![0, 2, 1]);
    assert_eq!(
        context.sort_info(2),
        Some(SortInfo {
            priority: 0,
            direction: SortDirection::Descending
        })
    );
    context.reset_column_order();
    assert_eq!(context.get_column_order(), vec![0, 1, 2]);
    assert_eq!(context.sort_records().len(), 1);
}
