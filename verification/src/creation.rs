//! Insertions, prepared: the rows that are to be written when a user
//! registers or places an order. A new row gets its identifier and its time
//! of creation here; writing it to the store is left to the caller.

use vstd::prelude::*;
use chrono::NaiveDateTime;
use crate::aggregate::{lemma_total_push, rows_total};
use crate::model::{
    item_models, new_item_models, text_of, JoinRowModel, NewOrderItem, NewOrderItemModel, Order,
    OrderItem, OrderItemModel, OrderModel, User, UserModel,
};
use crate::outside::{fresh_id, now};

verus! {

/// Whether a stored line is the given submitted line, put under the given
/// order.
pub open spec fn item_row_of(row: OrderItemModel, order_id: u128, item: NewOrderItemModel) -> bool {
    &&& row.order_id == order_id
    &&& row.description == item.description
    &&& row.qty == item.qty
    &&& row.price == item.price
}

/// Whether the stored lines are the submitted lines, one for one and in the
/// same order, put under the given order.
pub open spec fn item_rows_of(
    rows: Seq<OrderItemModel>,
    order_id: u128,
    items: Seq<NewOrderItemModel>,
) -> bool {
    &&& rows.len() == items.len()
    &&& forall|i: int| 0 <= i < rows.len() ==> item_row_of(#[trigger] rows[i], order_id, items[i])
}

/// What the submitted lines cost together.
pub open spec fn submitted_total(items: Seq<NewOrderItemModel>) -> int
    decreases items.len(),
{
    if items.len() == 0 {
        0
    } else {
        submitted_total(items.drop_last()) + items.last().qty as int * items.last().price as int
    }
}

/// The join of one order with its lines: the order beside each line.
pub open spec fn joined(order: OrderModel, items: Seq<OrderItemModel>) -> Seq<JoinRowModel> {
    items.map_values(|item: OrderItemModel| (order, item))
}

/// Builds the stored line for a submitted line, with the identifier and the
/// time of creation that it is given.
pub fn order_item_row(
    item_id: u128,
    order_id: u128,
    item: &NewOrderItem,
    created_at: NaiveDateTime,
) -> (row: OrderItem)
    ensures
        row@ == (OrderItemModel {
            item_id,
            order_id,
            description: item.description@,
            qty: item.qty,
            price: item.price,
            created_at,
        }),
        item_row_of(row@, order_id, item@),
{
    OrderItem {
        item_id,
        order_id,
        description: item.description.clone(),
        qty: item.qty,
        price: item.price,
        created_at,
    }
}

/// Prepares the insertion of the lines of an order: builds the stored lines
/// for the submitted ones, one for one and in the same order, each under the
/// given order, with a fresh identifier and the current time. No submitted
/// line gives no stored line.
pub fn insert_new_order_items(
    order_id_arg: u128,
    order_items_arg: &Vec<NewOrderItem>,
) -> (rows: Vec<OrderItem>)
    ensures
        item_rows_of(item_models(rows@), order_id_arg, new_item_models(order_items_arg@)),
{
    let mut rows: Vec<OrderItem> = Vec::new();
    let mut i: usize = 0;
    while i < order_items_arg.len()
        invariant
            i <= order_items_arg.len(),
            rows@.len() == i,
            forall|j: int|
                0 <= j < i ==> item_row_of(
                    (#[trigger] rows@[j])@,
                    order_id_arg,
                    order_items_arg@[j]@,
                ),
        decreases order_items_arg.len() - i,
    {
        let row = order_item_row(fresh_id(), order_id_arg, &order_items_arg[i], now());
        rows.push(row);
        i = i + 1;
    }
    rows
}

/// Builds the header of an order with what it is given.
pub fn order_header(
    order_id: u128,
    user_id: u128,
    note: Option<String>,
    created_at: NaiveDateTime,
) -> (order: Order)
    ensures
        order@ == (OrderModel { order_id, user_id, note: text_of(note), created_at }),
{
    Order { order_id, user_id, note, created_at }
}

/// Prepares the insertion of a new order: builds the header of an order of
/// the given user, with the current time as its time of creation.
pub fn insert_new_order(order_id_arg: u128, user_id_arg: u128, note_arg: Option<String>) -> (order:
    Order)
    ensures
        order@ == (OrderModel {
            order_id: order_id_arg,
            user_id: user_id_arg,
            note: text_of(note_arg),
            created_at: order.created_at,
        }),
{
    order_header(order_id_arg, user_id_arg, note_arg, now())
}

/// Builds the record of a user with what it is given.
pub fn user_record(
    user_id: u128,
    first_n: &str,
    last_n: &str,
    email_str: &str,
    passwd: &str,
    created_at: NaiveDateTime,
) -> (user: User)
    ensures
        user@ == (UserModel {
            user_id,
            first_name: first_n@,
            last_name: last_n@,
            email: email_str@,
            password: passwd@,
            created_at,
        }),
{
    User {
        user_id,
        first_name: first_n.to_owned(),
        last_name: last_n.to_owned(),
        email: email_str.to_owned(),
        password: passwd.to_owned(),
        created_at,
    }
}

/// Prepares the insertion of a new user: builds the user's record, with a
/// fresh identifier and the current time as its time of creation.
pub fn insert_new_user(first_n: &str, last_n: &str, email_str: &str, passwd: &str) -> (user: User)
    ensures
        user@ == (UserModel {
            user_id: user.user_id,
            first_name: first_n@,
            last_name: last_n@,
            email: email_str@,
            password: passwd@,
            created_at: user.created_at,
        }),
{
    user_record(fresh_id(), first_n, last_n, email_str, passwd, now())
}

/// An order that is read back right after its lines were stored costs what
/// the submitted lines cost: the total over the join of the order with the
/// stored lines is the sum of quantity times price over the submitted ones.
pub proof fn lemma_created_total(
    order: OrderModel,
    rows: Seq<OrderItemModel>,
    items: Seq<NewOrderItemModel>,
)
    requires
        item_rows_of(rows, order.order_id, items),
    ensures
        rows_total(joined(order, rows)) == submitted_total(items),
    decreases rows.len(),
{
    if rows.len() > 0 {
        let last = rows.last();
        assert(item_row_of(rows[rows.len() - 1], order.order_id, items[rows.len() - 1]));
        assert forall|i: int| 0 <= i < rows.drop_last().len() implies item_row_of(
            #[trigger] rows.drop_last()[i],
            order.order_id,
            items.drop_last()[i],
        ) by {
            assert(item_row_of(rows[i], order.order_id, items[i]));
        }
        lemma_created_total(order, rows.drop_last(), items.drop_last());
        assert(joined(order, rows) =~= joined(order, rows.drop_last()).push((order, last)));
        lemma_total_push(joined(order, rows.drop_last()), (order, last));
    } else {
        assert(joined(order, rows) =~= Seq::<JoinRowModel>::empty());
    }
}

} // verus!
