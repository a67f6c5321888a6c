use dioxus_tabular::column::{Comparison, TableColumn};
use dioxus_tabular::context::TableContext;
use dioxus_tabular::doc_examples::{
    decimal_text, ExampleColumn, Price, Product, ProductName, User, UserAge, UserId, UserName,
};
use dioxus_tabular::row::{GetRowData, Row};
use dioxus_tabular::sort::{Sort, SortDirection, SortGesture};

fn users() -> Vec<User> {
    vec![
        User {
            id: 1,
            name: "Alice".to_string(),
            age: 30,
        },
        User {
            id: 20,
            name: "Bob".to_string(),
            age: 25,
        },
    ]
}

#[test]
fn example_rows_are_keyed_by_their_id() {
    let users = users();
    assert_eq!(users[0].key(), "1");
    assert_eq!(users[1].key(), "20");
    let product = Product {
        id: 4096,
        name: "Lamp".to_string(),
        price: 1200,
    };
    assert_eq!(product.key(), "4096");
}

#[test]
fn example_accessors_give_the_fields() {
    let users = users();
    let id: UserId = users[1].get();
    let name: UserName = users[1].get();
    let age: UserAge = users[1].get();
    assert_eq!(id.0, 20);
    assert_eq!(name.0, "Bob");
    assert_eq!(age.0, 25);

    let product = Product {
        id: 7,
        name: "Lamp".to_string(),
        price: 1200,
    };
    let price: Price = product.get();
    let name: ProductName = product.get();
    assert_eq!(price.0, 1200);
    assert_eq!(name.0, "Lamp");
}

#[test]
fn example_column_keeps_every_row_and_does_not_sort() {
    let users = users();
    assert_eq!(
        <ExampleColumn as TableColumn<User>>::column_name(&ExampleColumn),
        "example"
    );
    assert!(ExampleColumn.filter(&users[0]));
    assert_eq!(ExampleColumn.compare(&users[1], &users[0]), Comparison::Equal);

    let mut context = TableContext::use_table_context::<User>((ExampleColumn,));
    context.data.request_sort(
        0,
        SortGesture::AddFirst(Sort {
            direction: SortDirection::Descending,
        }),
    );
    let shown: Vec<usize> = context.rows(&users).iter().map(|row| row.index).collect();
    assert_eq!(shown, vec![0, 1]);
    let keys: Vec<String> = context.headers().iter().map(|h| h.key()).collect();
    assert_eq!(keys, vec!["example"]);
}

#[test]
fn decimal_text_writes_numbers_in_base_ten() {
    assert_eq!(decimal_text(0), "0");
    assert_eq!(decimal_text(7), "7");
    assert_eq!(decimal_text(10), "10");
    assert_eq!(decimal_text(909), "909");
    assert_eq!(decimal_text(1_000_000), "1000000");
    assert_eq!(decimal_text(u32::MAX), "4294967295");
    for n in [1u32, 9, 11, 99, 100, 12345, 4096, 65535, 2_147_483_648] {
        assert_eq!(decimal_text(n), n.to_string());
    }
}
