use dioxus_tabular::column_order::ColumnOrder;

#[test]
fn test_new() {
    let order = ColumnOrder::new(3);
    assert_eq!(order.get_order(), &[0, 1, 2]);
    assert_eq!(order.total_columns(), 3);
}

#[test]
fn test_swap() {
    let mut order = ColumnOrder::new(3);
    order.swap(0, 2);
    assert_eq!(order.get_order(), &[2, 1, 0]);
}

#[test]
fn test_swap_saturating() {
    let mut order = ColumnOrder::new(3);
    order.swap(0, 100); // Should saturate to 2
    assert_eq!(order.get_order(), &[2, 1, 0]);
}

#[test]
fn test_hide_show() {
    let mut order = ColumnOrder::new(3);

    order.hide_column(1);
    assert_eq!(order.get_order(), &[0, 2]);
    assert!(!order.is_visible(1));

    order.show_column(1, None);
    assert_eq!(order.get_order(), &[0, 2, 1]);
    assert!(order.is_visible(1));
}

#[test]
fn test_show_at_index() {
    let mut order = ColumnOrder::new(3);
    order.hide_column(1);
    order.show_column(1, Some(0));
    assert_eq!(order.get_order(), &[1, 0, 2]);
}

#[test]
fn test_move_to() {
    let mut order = ColumnOrder::new(3);
    order.move_to(0, 2);
    assert_eq!(order.get_order(), &[1, 2, 0]);
}

#[test]
fn test_move_forward_backward() {
    let mut order = ColumnOrder::new(3);

    order.move_backward(0);
    assert_eq!(order.get_order(), &[1, 0, 2]);

    order.move_forward(0);
    assert_eq!(order.get_order(), &[0, 1, 2]);
}

#[test]
fn test_move_forward_at_start() {
    let mut order = ColumnOrder::new(3);
    order.move_forward(0);
    assert_eq!(order.get_order(), &[0, 1, 2]); // No change
}

#[test]
fn test_move_backward_at_end() {
    let mut order = ColumnOrder::new(3);
    order.move_backward(2);
    assert_eq!(order.get_order(), &[0, 1, 2]); // No change
}

#[test]
fn test_position() {
    let mut order = ColumnOrder::new(3);
    assert_eq!(order.position(1), Some(1));

    order.hide_column(1);
    assert_eq!(order.position(1), None);
}

#[test]
fn test_reset() {
    let mut order = ColumnOrder::new(3);

    // Make some changes
    order.hide_column(1);
    order.swap(0, 2);
    assert_eq!(order.get_order(), &[2, 0]);

    // Reset should restore default order
    order.reset();
    assert_eq!(order.get_order(), &[0, 1, 2]);
    assert!(order.is_visible(1));
}

#[test]
fn new_lists_every_column_in_declaration_order() {
    assert_eq!(ColumnOrder::new(0).get_order(), &[] as &[usize]);
    assert_eq!(ColumnOrder::new(1).get_order(), &[0]);
    assert_eq!(ColumnOrder::new(5).get_order(), &[0, 1, 2, 3, 4]);
    assert_eq!(ColumnOrder::new(5).total_columns(), 5);
}

#[test]
fn swap_with_a_hidden_column_changes_nothing() {
    let mut order = ColumnOrder::new(4);
    order.hide_column(2);
    order.swap(0, 2);
    assert_eq!(order.get_order(), &[0, 1, 3]);
    order.swap(2, 3);
    assert_eq!(order.get_order(), &[0, 1, 3]);
    order.swap(1, 1);
    assert_eq!(order.get_order(), &[0, 1, 3]);
    order.swap(3, 0);
    assert_eq!(order.get_order(), &[3, 1, 0]);
}

#[test]
fn hide_is_idempotent_and_saturates() {
    let mut order = ColumnOrder::new(3);
    order.hide_column(7); // the last column
    assert_eq!(order.get_order(), &[0, 1]);
    order.hide_column(2);
    assert_eq!(order.get_order(), &[0, 1]);
    assert!(!order.is_visible(9));
    assert_eq!(order.position(9), None);
    assert_eq!(order.position(0), Some(0));
}

#[test]
fn show_saturates_the_place_and_ignores_visible_columns() {
    let mut order = ColumnOrder::new(4);
    order.show_column(1, Some(0));
    assert_eq!(order.get_order(), &[0, 1, 2, 3]);

    order.hide_column(0);
    order.show_column(0, Some(100));
    assert_eq!(order.get_order(), &[1, 2, 3, 0]);

    order.hide_column(2);
    order.show_column(2, Some(3));
    assert_eq!(order.get_order(), &[1, 3, 0, 2]);

    order.hide_column(3);
    order.show_column(3, Some(2));
    assert_eq!(order.get_order(), &[1, 0, 3, 2]);
}

#[test]
fn move_to_counts_places_among_the_other_columns() {
    let mut order = ColumnOrder::new(4);
    order.move_to(1, 100);
    assert_eq!(order.get_order(), &[0, 2, 3, 1]);
    order.move_to(3, 0);
    assert_eq!(order.get_order(), &[3, 0, 2, 1]);
    order.move_to(0, 1);
    assert_eq!(order.get_order(), &[3, 0, 2, 1]);
    order.move_to(0, 2);
    assert_eq!(order.get_order(), &[3, 2, 0, 1]);

    order.hide_column(2);
    order.move_to(2, 0);
    assert_eq!(order.get_order(), &[3, 0, 1]);
}

#[test]
fn moves_of_hidden_columns_change_nothing() {
    let mut order = ColumnOrder::new(3);
    order.hide_column(1);
    order.move_forward(1);
    order.move_backward(1);
    assert_eq!(order.get_order(), &[0, 2]);
    order.move_backward(0);
    assert_eq!(order.get_order(), &[2, 0]);
    order.move_backward(0);
    assert_eq!(order.get_order(), &[2, 0]);
    order.move_forward(2);
    assert_eq!(order.get_order(), &[2, 0]);
}

#[test]
fn a_table_without_columns_stays_empty() {
    let mut order = ColumnOrder::new(0);
    order.swap(0, 1);
    order.hide_column(0);
    order.show_column(0, None);
    order.show_column(3, Some(0));
    order.move_to(0, 0);
    order.move_forward(0);
    order.move_backward(0);
    assert_eq!(order.get_order(), &[] as &[usize]);
    assert!(!order.is_visible(0));
    assert_eq!(order.position(0), None);
    order.reset();
    assert_eq!(order.get_order(), &[] as &[usize]);
    assert_eq!(order.total_columns(), 0);
}

#[test]
fn reset_restores_the_declaration_order_after_any_change() {
    let mut order = ColumnOrder::new(4);
    order.move_to(3, 0);
    order.hide_column(0);
    order.hide_column(2);
    order.move_backward(3);
    order.reset();
    assert_eq!(order.get_order(), &[0, 1, 2, 3]);
    assert_eq!(order.clone(), ColumnOrder::new(4));
}
