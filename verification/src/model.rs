//! The records of the service and their mathematical models.
//!
//! Identifiers are UUIDs held as 128-bit numbers. Text is modelled as a
//! sequence of characters, a list as a sequence, a money amount as an integer
//! in minor currency units.

use vstd::prelude::*;
use chrono::NaiveDateTime;

verus! {

/// The model of an optional text.
pub open spec fn text_of(text: Option<String>) -> Option<Seq<char>> {
    match text {
        Some(s) => Some(s@),
        None => None,
    }
}

/// A registered user.
#[derive(Debug, PartialEq, Eq)]
pub struct User {
    pub user_id: u128,
    pub first_name: String,
    pub last_name: String,
    pub email: String,
    pub password: String,
    pub created_at: NaiveDateTime,
}

/// The model of a [`User`].
pub struct UserModel {
    pub user_id: u128,
    pub first_name: Seq<char>,
    pub last_name: Seq<char>,
    pub email: Seq<char>,
    pub password: Seq<char>,
    pub created_at: NaiveDateTime,
}

impl Clone for User {
    fn clone(&self) -> (copy: Self)
        ensures
            copy@ == self@,
    {
        User {
            user_id: self.user_id,
            first_name: self.first_name.clone(),
            last_name: self.last_name.clone(),
            email: self.email.clone(),
            password: self.password.clone(),
            created_at: self.created_at,
        }
    }
}

impl View for User {
    type V = UserModel;

    open spec fn view(&self) -> UserModel {
        UserModel {
            user_id: self.user_id,
            first_name: self.first_name@,
            last_name: self.last_name@,
            email: self.email@,
            password: self.password@,
            created_at: self.created_at,
        }
    }
}

/// An order header: the order without its items.
#[derive(Debug, PartialEq, Eq)]
pub struct Order {
    pub order_id: u128,
    pub user_id: u128,
    pub note: Option<String>,
    pub created_at: NaiveDateTime,
}

/// The model of an [`Order`].
pub struct OrderModel {
    pub order_id: u128,
    pub user_id: u128,
    pub note: Option<Seq<char>>,
    pub created_at: NaiveDateTime,
}

impl Clone for Order {
    fn clone(&self) -> (copy: Self)
        ensures
            copy@ == self@,
    {
        Order {
            order_id: self.order_id,
            user_id: self.user_id,
            note: copy_text(&self.note),
            created_at: self.created_at,
        }
    }
}

impl View for Order {
    type V = OrderModel;

    open spec fn view(&self) -> OrderModel {
        OrderModel {
            order_id: self.order_id,
            user_id: self.user_id,
            note: text_of(self.note),
            created_at: self.created_at,
        }
    }
}

/// One line of an order, as the store holds it.
#[derive(Debug, PartialEq, Eq)]
pub struct OrderItem {
    pub item_id: u128,
    pub order_id: u128,
    pub description: String,
    pub qty: i32,
    pub price: i32,
    pub created_at: NaiveDateTime,
}

/// The model of an [`OrderItem`].
pub struct OrderItemModel {
    pub item_id: u128,
    pub order_id: u128,
    pub description: Seq<char>,
    pub qty: i32,
    pub price: i32,
    pub created_at: NaiveDateTime,
}

impl Clone for OrderItem {
    fn clone(&self) -> (copy: Self)
        ensures
            copy@ == self@,
    {
        OrderItem {
            item_id: self.item_id,
            order_id: self.order_id,
            description: self.description.clone(),
            qty: self.qty,
            price: self.price,
            created_at: self.created_at,
        }
    }
}

impl View for OrderItem {
    type V = OrderItemModel;

    open spec fn view(&self) -> OrderItemModel {
        OrderItemModel {
            item_id: self.item_id,
            order_id: self.order_id,
            description: self.description@,
            qty: self.qty,
            price: self.price,
            created_at: self.created_at,
        }
    }
}

/// One line of an order as a client submits it.
#[derive(Debug, PartialEq, Eq)]
pub struct NewOrderItem {
    pub description: String,
    pub qty: i32,
    pub price: i32,
}

/// The model of a [`NewOrderItem`].
pub struct NewOrderItemModel {
    pub description: Seq<char>,
    pub qty: i32,
    pub price: i32,
}

impl Clone for NewOrderItem {
    fn clone(&self) -> (copy: Self)
        ensures
            copy@ == self@,
    {
        NewOrderItem {
            description: self.description.clone(),
            qty: self.qty,
            price: self.price,
        }
    }
}

impl View for NewOrderItem {
    type V = NewOrderItemModel;

    open spec fn view(&self) -> NewOrderItemModel {
        NewOrderItemModel { description: self.description@, qty: self.qty, price: self.price }
    }
}

/// The models of submitted lines, in order.
pub open spec fn new_item_models(items: Seq<NewOrderItem>) -> Seq<NewOrderItemModel> {
    items.map_values(|item: NewOrderItem| item@)
}

/// An order as a client submits it.
#[derive(Debug, PartialEq, Eq)]
pub struct NewOrder {
    pub note: Option<String>,
    pub items: Vec<NewOrderItem>,
}

/// The model of a [`NewOrder`].
pub struct NewOrderModel {
    pub note: Option<Seq<char>>,
    pub items: Seq<NewOrderItemModel>,
}

impl Clone for NewOrder {
    fn clone(&self) -> (copy: Self)
        ensures
            copy@ == self@,
    {
        let mut items: Vec<NewOrderItem> = Vec::new();
        let mut i: usize = 0;
        while i < self.items.len()
            invariant
                i <= self.items.len(),
                items@.len() == i,
                forall|j: int| 0 <= j < i ==> (#[trigger] items@[j])@ == self.items@[j]@,
            decreases self.items.len() - i,
        {
            items.push(self.items[i].clone());
            i = i + 1;
        }
        let copy = NewOrder { note: copy_text(&self.note), items };
        proof {
            assert(copy@.items =~= self@.items);
        }
        copy
    }
}

impl View for NewOrder {
    type V = NewOrderModel;

    open spec fn view(&self) -> NewOrderModel {
        NewOrderModel { note: text_of(self.note), items: new_item_models(self.items@) }
    }
}

/// One line of an order as a client reads it back.
#[derive(Debug, PartialEq, Eq)]
pub struct OrderItemDetails {
    pub item_id: u128,
    pub description: String,
    pub qty: i32,
    pub price: i32,
}

/// The model of an [`OrderItemDetails`].
pub struct OrderItemDetailsModel {
    pub item_id: u128,
    pub description: Seq<char>,
    pub qty: i32,
    pub price: i32,
}

impl Clone for OrderItemDetails {
    fn clone(&self) -> (copy: Self)
        ensures
            copy@ == self@,
    {
        OrderItemDetails {
            item_id: self.item_id,
            description: self.description.clone(),
            qty: self.qty,
            price: self.price,
        }
    }
}

impl View for OrderItemDetails {
    type V = OrderItemDetailsModel;

    open spec fn view(&self) -> OrderItemDetailsModel {
        OrderItemDetailsModel {
            item_id: self.item_id,
            description: self.description@,
            qty: self.qty,
            price: self.price,
        }
    }
}

/// The models of the lines read back, in order; `None` where the list is
/// absent.
pub open spec fn detail_models(items: Option<Vec<OrderItemDetails>>) -> Option<
    Seq<OrderItemDetailsModel>,
> {
    match items {
        Some(list) => Some(list@.map_values(|line: OrderItemDetails| line@)),
        None => None,
    }
}

/// An order as a client reads it back: the header, the total over its
/// lines, and the lines themselves where they were asked for. It is computed
/// on every read and never stored.
#[derive(Debug, PartialEq, Eq)]
pub struct OrderDetails {
    pub order_id: u128,
    pub user_id: u128,
    pub note: Option<String>,
    pub order_total: i64,
    pub order_at: NaiveDateTime,
    pub items: Option<Vec<OrderItemDetails>>,
}

/// The model of an [`OrderDetails`].
pub struct OrderDetailsModel {
    pub order_id: u128,
    pub user_id: u128,
    pub note: Option<Seq<char>>,
    pub order_total: int,
    pub order_at: NaiveDateTime,
    pub items: Option<Seq<OrderItemDetailsModel>>,
}

impl Clone for OrderDetails {
    fn clone(&self) -> (copy: Self)
        ensures
            copy@ == self@,
    {
        let items = match &self.items {
            Some(list) => {
                let mut lines: Vec<OrderItemDetails> = Vec::new();
                let mut i: usize = 0;
                while i < list.len()
                    invariant
                        i <= list.len(),
                        lines@.len() == i,
                        forall|j: int| 0 <= j < i ==> (#[trigger] lines@[j])@ == list@[j]@,
                    decreases list.len() - i,
                {
                    lines.push(list[i].clone());
                    i = i + 1;
                }
                proof {
                    assert(detail_models(Some(lines)).unwrap() =~= detail_models(
                        self.items,
                    ).unwrap());
                }
                Some(lines)
            },
            None => None,
        };
        OrderDetails {
            order_id: self.order_id,
            user_id: self.user_id,
            note: copy_text(&self.note),
            order_total: self.order_total,
            order_at: self.order_at,
            items,
        }
    }
}

impl View for OrderDetails {
    type V = OrderDetailsModel;

    open spec fn view(&self) -> OrderDetailsModel {
        OrderDetailsModel {
            order_id: self.order_id,
            user_id: self.user_id,
            note: text_of(self.note),
            order_total: self.order_total as int,
            order_at: self.order_at,
            items: detail_models(self.items),
        }
    }
}

/// The models of a list of [`OrderDetails`], in order.
pub open spec fn details_models(list: Seq<OrderDetails>) -> Seq<OrderDetailsModel> {
    list.map_values(|details: OrderDetails| details@)
}

/// A row of the join of orders with their items: an order header beside one
/// of its lines.
pub type JoinRow = (Order, OrderItem);

/// The model of a [`JoinRow`].
pub type JoinRowModel = (OrderModel, OrderItemModel);

/// The models of join rows, in order.
pub open spec fn row_models(rows: Seq<JoinRow>) -> Seq<JoinRowModel> {
    rows.map_values(|row: JoinRow| (row.0@, row.1@))
}

/// The models of stored lines, in order.
pub open spec fn item_models(items: Seq<OrderItem>) -> Seq<OrderItemModel> {
    items.map_values(|item: OrderItem| item@)
}

/// The models of users, in order.
pub open spec fn user_models(users: Seq<User>) -> Seq<UserModel> {
    users.map_values(|user: User| user@)
}

/// Copies an optional text.
pub fn copy_text(text: &Option<String>) -> (copy: Option<String>)
    ensures
        text_of(copy) == text_of(*text),
{
    match text {
        Some(s) => Some(s.clone()),
        None => None,
    }
}

} // verus!
