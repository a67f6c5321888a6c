//! Small row and column types for documentation and examples.

use crate::column::{Comparison, TableColumn};
use crate::row::{GetRowData, Row};
use vstd::prelude::*;

verus! {

/// The decimal digit `d`.
pub open spec fn digit(d: nat) -> char {
    if d == 0 {
        '0'
    } else if d == 1 {
        '1'
    } else if d == 2 {
        '2'
    } else if d == 3 {
        '3'
    } else if d == 4 {
        '4'
    } else if d == 5 {
        '5'
    } else if d == 6 {
        '6'
    } else if d == 7 {
        '7'
    } else if d == 8 {
        '8'
    } else {
        '9'
    }
}

/// The digits of `n` in base ten, the most significant first.
pub open spec fn decimal(n: nat) -> Seq<char>
    decreases n,
{
    if n < 10 {
        seq![digit(n)]
    } else {
        decimal(n / 10).push(digit(n % 10))
    }
}

/// The text of one decimal digit.
fn digit_text(d: u32) -> (text: &'static str)
    requires
        d < 10,
    ensures
        text@ == seq![digit(d as nat)],
{
    proof {
        reveal_strlit("0");
        reveal_strlit("1");
        reveal_strlit("2");
        reveal_strlit("3");
        reveal_strlit("4");
        reveal_strlit("5");
        reveal_strlit("6");
        reveal_strlit("7");
        reveal_strlit("8");
        reveal_strlit("9");
    }
    let text = if d == 0 {
        "0"
    } else if d == 1 {
        "1"
    } else if d == 2 {
        "2"
    } else if d == 3 {
        "3"
    } else if d == 4 {
        "4"
    } else if d == 5 {
        "5"
    } else if d == 6 {
        "6"
    } else if d == 7 {
        "7"
    } else if d == 8 {
        "8"
    } else {
        "9"
    };
    assert(text@ =~= seq![digit(d as nat)]);
    text
}

/// `n` written in base ten.
pub fn decimal_text(n: u32) -> (text: String)
    ensures
        text@ == decimal(n as nat),
    decreases n,
{
    if n < 10 {
        String::from_str(digit_text(n))
    } else {
        let mut text = decimal_text(n / 10);
        text.append(digit_text(n % 10));
        assert(text@ =~= decimal(n as nat));
        text
    }
}

/// Example user type.
#[derive(Clone, PartialEq)]
pub struct User {
    pub id: u32,
    pub name: String,
    pub age: u32,
}

impl Row for User {
    open spec fn id(&self) -> Seq<char> {
        decimal(self.id as nat)
    }

    fn key(&self) -> (key: String) {
        decimal_text(self.id)
    }
}

/// Accessor for user ID.
#[derive(Clone, PartialEq)]
pub struct UserId(pub u32);

impl GetRowData<UserId> for User {
    fn get(&self) -> UserId
        returns
            UserId(self.id),
    {
        UserId(self.id)
    }
}

/// Accessor for user name.
#[derive(Clone, PartialEq)]
pub struct UserName(pub String);

impl GetRowData<UserName> for User {
    fn get(&self) -> UserName
        returns
            UserName(self.name),
    {
        UserName(self.name.clone())
    }
}

/// Accessor for user age.
#[derive(Clone, PartialEq)]
pub struct UserAge(pub u32);

impl GetRowData<UserAge> for User {
    fn get(&self) -> UserAge
        returns
            UserAge(self.age),
    {
        UserAge(self.age)
    }
}

/// Example product type.
#[derive(Clone, PartialEq)]
pub struct Product {
    pub id: u32,
    pub name: String,
    pub price: u32,
}

impl Row for Product {
    open spec fn id(&self) -> Seq<char> {
        decimal(self.id as nat)
    }

    fn key(&self) -> (key: String) {
        decimal_text(self.id)
    }
}

/// Accessor for product price.
#[derive(Clone, PartialEq)]
pub struct Price(pub u32);

impl GetRowData<Price> for Product {
    fn get(&self) -> Price
        returns
            Price(self.price),
    {
        Price(self.price)
    }
}

/// Accessor for product name.
#[derive(Clone, PartialEq)]
pub struct ProductName(pub String);

impl GetRowData<ProductName> for Product {
    fn get(&self) -> ProductName
        returns
            ProductName(self.name),
    {
        ProductName(self.name.clone())
    }
}

/// Simple example column: it shows the user's name, keeps every row and
/// does not sort.
#[derive(Clone, PartialEq)]
pub struct ExampleColumn;

impl<R: Row + GetRowData<UserName>> TableColumn<R> for ExampleColumn {
    open spec fn name(&self) -> Seq<char> {
        "example"@
    }

    fn column_name(&self) -> (name: String) {
        "example".to_owned()
    }

    fn filter(&self, row: &R) -> (keep: bool) {
        true
    }

    fn compare(&self, a: &R, b: &R) -> (result: Comparison) {
        Comparison::Equal
    }
}

} // verus!
