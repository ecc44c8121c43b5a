//! Order aggregation: from the rows of the join of orders with their items
//! to what a client reads back, one order with its lines or one summary per
//! order.

use vstd::prelude::*;
use vstd::std_specs::hash::group_hash_axioms;
use std::collections::HashMap;
use crate::failure::Failure;
use crate::model::{
    copy_text, details_models, row_models, JoinRow, JoinRowModel, OrderDetails,
    OrderDetailsModel, OrderItem, OrderItemDetails, OrderItemDetailsModel, OrderItemModel,
};

verus! {

/// What one line costs: quantity times unit price.
pub open spec fn line_total(item: OrderItemModel) -> int {
    item.qty as int * item.price as int
}

/// What the lines of the given rows cost together.
pub open spec fn rows_total(rows: Seq<JoinRowModel>) -> int
    decreases rows.len(),
{
    if rows.len() == 0 {
        0
    } else {
        rows_total(rows.drop_last()) + line_total(rows.last().1)
    }
}

/// Whether an amount can be held in the 64 bits of an order total.
pub open spec fn fits_total(amount: int) -> bool {
    i64::MIN <= amount <= i64::MAX
}

/// A line as a client reads it back.
pub open spec fn line_details(item: OrderItemModel) -> OrderItemDetailsModel {
    OrderItemDetailsModel {
        item_id: item.item_id,
        description: item.description,
        qty: item.qty,
        price: item.price,
    }
}

/// The lines of the given rows as a client reads them back, in row order.
pub open spec fn rows_details(rows: Seq<JoinRowModel>) -> Seq<OrderItemDetailsModel> {
    rows.map_values(|row: JoinRowModel| line_details(row.1))
}

/// The order that the given rows make up: the header of the first row, the
/// total over all rows, and every row's line in row order.
pub open spec fn single_details(rows: Seq<JoinRowModel>) -> OrderDetailsModel
    recommends
        rows.len() > 0,
{
    OrderDetailsModel {
        order_id: rows[0].0.order_id,
        user_id: rows[0].0.user_id,
        note: rows[0].0.note,
        order_total: rows_total(rows),
        order_at: rows[0].0.created_at,
        items: Some(rows_details(rows)),
    }
}

/// The total grows by a row's line when the row is appended.
pub proof fn lemma_total_push(rows: Seq<JoinRowModel>, row: JoinRowModel)
    ensures
        rows_total(rows.push(row)) == rows_total(rows) + line_total(row.1),
{
    assert(rows.push(row).drop_last() =~= rows);
}

/// A line's cost has at most 62 bits.
pub proof fn lemma_line_total_bound(item: OrderItemModel)
    ensures
        -0x4000_0000_0000_0000 <= line_total(item) <= 0x4000_0000_0000_0000,
{
    let q = item.qty as int;
    let p = item.price as int;
    assert(-0x4000_0000_0000_0000 <= q * p <= 0x4000_0000_0000_0000) by (nonlinear_arith)
        requires
            -0x8000_0000 <= q <= 0x7fff_ffff,
            -0x8000_0000 <= p <= 0x7fff_ffff,
    ;
}

/// Computes what one stored line costs.
pub fn line_cost(item: &OrderItem) -> (cost: i64)
    ensures
        cost == line_total(item@),
{
    proof {
        lemma_line_total_bound(item@);
    }
    (item.qty as i64) * (item.price as i64)
}

/// Sums the cost of the lines of the given rows. The sum is `None` where it
/// does not fit in 64 bits.
pub fn checked_total(rows: &Vec<JoinRow>) -> (total: Option<i64>)
    ensures
        match total {
            Some(sum) => sum == rows_total(row_models(rows@)),
            None => !fits_total(rows_total(row_models(rows@))),
        },
{
    let ghost models = row_models(rows@);
    let mut sum: i128 = 0;
    let mut i: usize = 0;
    while i < rows.len()
        invariant
            i <= rows.len(),
            models == row_models(rows@),
            sum == rows_total(models.take(i as int)),
            -0x4000_0000_0000_0000 * i <= sum <= 0x4000_0000_0000_0000 * i,
        decreases rows.len() - i,
    {
        let cost = line_cost(&rows[i].1);
        proof {
            lemma_line_total_bound(rows[i as int].1@);
            assert(models.take(i + 1) =~= models.take(i as int).push(models[i as int]));
            lemma_total_push(models.take(i as int), models[i as int]);
        }
        sum = sum + cost as i128;
        i = i + 1;
    }
    assert(models.take(i as int) =~= models);
    if sum < i64::MIN as i128 || sum > i64::MAX as i128 {
        None
    } else {
        Some(sum as i64)
    }
}

/// Copies a stored line into the form that a client reads back.
pub fn item_details(item: &OrderItem) -> (line: OrderItemDetails)
    ensures
        line@ == line_details(item@),
{
    OrderItemDetails {
        item_id: item.item_id,
        description: item.description.clone(),
        qty: item.qty,
        price: item.price,
    }
}

/// Builds one order with its lines from the rows that the join gave for it.
///
/// The header is that of the first row, the total is the sum of quantity
/// times price over all rows, and the lines stand in row order. An empty
/// list of rows means that there is no such order. The total must fit in 64
/// bits; [`checked_total`] tells whether it does.
pub fn aggregate_single(rows: &Vec<JoinRow>) -> (result: Result<OrderDetails, Failure>)
    requires
        fits_total(rows_total(row_models(rows@))),
    ensures
        match result {
            Ok(details) => {
                &&& rows@.len() > 0
                &&& details@ == single_details(row_models(rows@))
                &&& details.order_total == rows_total(row_models(rows@))
                &&& details.items is Some
            },
            Err(failure) => rows@.len() == 0 && failure == Failure::NotFound,
        },
{
    if rows.len() == 0 {
        return Err(Failure::NotFound);
    }
    let ghost models = row_models(rows@);
    let total = match checked_total(rows) {
        Some(sum) => sum,
        None => 0,
    };
    let mut items: Vec<OrderItemDetails> = Vec::new();
    let mut i: usize = 0;
    while i < rows.len()
        invariant
            i <= rows.len(),
            items@.len() == i,
            forall|j: int| 0 <= j < i ==> (#[trigger] items@[j])@ == line_details(rows@[j].1@),
        decreases rows.len() - i,
    {
        items.push(item_details(&rows[i].1));
        i = i + 1;
    }
    let order = &rows[0].0;
    let details = OrderDetails {
        order_id: order.order_id,
        user_id: order.user_id,
        note: copy_text(&order.note),
        order_total: total,
        order_at: order.created_at,
        items: Some(items),
    };
    proof {
        assert(details@.items.unwrap() =~= rows_details(models));
    }
    Ok(details)
}

/// The ids of the orders among the rows, each once, in the order in which
/// the orders first appear.
pub open spec fn order_ids(rows: Seq<JoinRowModel>) -> Seq<u128>
    decreases rows.len(),
{
    if rows.len() == 0 {
        Seq::empty()
    } else {
        let before = order_ids(rows.drop_last());
        let order_id = rows.last().0.order_id;
        if before.contains(order_id) {
            before
        } else {
            before.push(order_id)
        }
    }
}

/// The test that a row belongs to the given order.
pub open spec fn of_order(order_id: u128) -> spec_fn(JoinRowModel) -> bool {
    |row: JoinRowModel| row.0.order_id == order_id
}

/// The rows of one order, in row order.
pub open spec fn rows_of(rows: Seq<JoinRowModel>, order_id: u128) -> Seq<JoinRowModel> {
    rows.filter(of_order(order_id))
}

/// The summary of one order among the rows: what [`single_details`] makes of
/// the order's own rows, without the lines.
pub open spec fn summary(rows: Seq<JoinRowModel>, order_id: u128) -> OrderDetailsModel {
    let own = single_details(rows_of(rows, order_id));
    OrderDetailsModel {
        order_id: own.order_id,
        user_id: own.user_id,
        note: own.note,
        order_total: own.order_total,
        order_at: own.order_at,
        items: None,
    }
}

/// One summary for each order among the rows, in the order in which the
/// orders first appear.
pub open spec fn summaries(rows: Seq<JoinRowModel>) -> Seq<OrderDetailsModel> {
    order_ids(rows).map_values(|order_id: u128| summary(rows, order_id))
}

/// Whether the total of every order among the rows fits in 64 bits.
pub open spec fn totals_fit(rows: Seq<JoinRowModel>) -> bool {
    forall|order_id: u128| fits_total(rows_total(#[trigger] rows_of(rows, order_id)))
}

/// An appended row joins the rows of its own order and of no other.
pub proof fn lemma_rows_of_push(rows: Seq<JoinRowModel>, row: JoinRowModel, order_id: u128)
    ensures
        rows_of(rows.push(row), order_id) == if row.0.order_id == order_id {
            rows_of(rows, order_id).push(row)
        } else {
            rows_of(rows, order_id)
        },
{
    reveal(Seq::filter);
    assert(rows.push(row).drop_last() =~= rows);
}

/// An appended row adds its order id to the ids unless it is among them.
pub proof fn lemma_order_ids_push(rows: Seq<JoinRowModel>, row: JoinRowModel)
    ensures
        order_ids(rows.push(row)) == if order_ids(rows).contains(row.0.order_id) {
            order_ids(rows)
        } else {
            order_ids(rows).push(row.0.order_id)
        },
{
    assert(rows.push(row).drop_last() =~= rows);
}

/// An id is among the order ids exactly when some row belongs to that order.
pub proof fn lemma_ids_present(rows: Seq<JoinRowModel>, order_id: u128)
    ensures
        order_ids(rows).contains(order_id) <==> rows_of(rows, order_id).len() > 0,
        order_ids(rows).contains(order_id) <==> exists|i: int|
            0 <= i < rows.len() && (#[trigger] rows[i]).0.order_id == order_id,
    decreases rows.len(),
{
    reveal(Seq::filter);
    if rows.len() > 0 {
        let before = rows.drop_last();
        let last = rows.last();
        lemma_ids_present(before, order_id);
        let ids = order_ids(before);
        if last.0.order_id == order_id {
            if !ids.contains(order_id) {
                assert(ids.push(order_id)[ids.len() as int] == order_id);
            }
            assert(rows[rows.len() - 1].0.order_id == order_id);
        } else {
            if ids.contains(order_id) {
                let k = choose|k: int| 0 <= k < ids.len() && ids[k] == order_id;
                assert(order_ids(rows)[k] == order_id);
                let i = choose|i: int|
                    0 <= i < before.len() && (#[trigger] before[i]).0.order_id == order_id;
                assert(rows[i].0.order_id == order_id);
            } else {
                if exists|i: int|
                    0 <= i < rows.len() && (#[trigger] rows[i]).0.order_id == order_id {
                    let i = choose|i: int|
                        0 <= i < rows.len() && (#[trigger] rows[i]).0.order_id == order_id;
                    assert(before[i].0.order_id == order_id);
                }
                if order_ids(rows).contains(order_id) {
                    let k = choose|k: int|
                        0 <= k < order_ids(rows).len() && order_ids(rows)[k] == order_id;
                    if k < ids.len() {
                        assert(ids[k] == order_id);
                    }
                }
            }
        }
    }
}

/// No order id is listed twice.
pub proof fn lemma_ids_distinct(rows: Seq<JoinRowModel>)
    ensures
        order_ids(rows).no_duplicates(),
    decreases rows.len(),
{
    if rows.len() > 0 {
        lemma_ids_distinct(rows.drop_last());
    }
}

/// What the grouping pass holds for the order that came `slot`-th among the
/// first `n` rows: the place of the order's first row and its total so far.
spec fn slot_filled(
    rows: Seq<JoinRowModel>,
    n: int,
    heads: Seq<usize>,
    totals: Seq<i128>,
    slot: int,
) -> bool {
    let own = rows_of(rows.take(n), order_ids(rows.take(n))[slot]);
    &&& heads[slot] < n
    &&& own.len() > 0
    &&& own[0] == rows[heads[slot] as int]
    &&& totals[slot] == rows_total(own)
    &&& -0x4000_0000_0000_0000 * n <= totals[slot] <= 0x4000_0000_0000_0000 * n
}

/// What the grouping pass holds after the first `n` rows: one slot for each
/// order met, in the order of [`order_ids`].
spec fn grouped(rows: Seq<JoinRowModel>, n: int, heads: Seq<usize>, totals: Seq<i128>) -> bool {
    &&& heads.len() == order_ids(rows.take(n)).len()
    &&& totals.len() == order_ids(rows.take(n)).len()
    &&& forall|slot: int|
        0 <= slot < heads.len() ==> #[trigger] slot_filled(rows, n, heads, totals, slot)
}

/// Groups the rows by order: for each order, in order of first appearance,
/// the index of its first row and the sum of its lines.
fn group_rows(rows: &Vec<JoinRow>) -> (groups: (Vec<usize>, Vec<i128>))
    ensures
        grouped(row_models(rows@), rows@.len() as int, groups.0@, groups.1@),
{
    broadcast use group_hash_axioms;

    let ghost models = row_models(rows@);
    let mut slots: HashMap<u128, usize> = HashMap::new();
    let mut heads: Vec<usize> = Vec::new();
    let mut totals: Vec<i128> = Vec::new();
    let mut i: usize = 0;
    while i < rows.len()
        invariant
            i <= rows.len(),
            models == row_models(rows@),
            grouped(models, i as int, heads@, totals@),
            forall|order_id: u128|
                slots@.contains_key(order_id) <==> order_ids(models.take(i as int)).contains(
                    order_id,
                ),
            forall|slot: int|
                0 <= slot < heads@.len() ==> slots@[#[trigger] order_ids(
                    models.take(i as int),
                )[slot]] == slot,
        decreases rows.len() - i,
    {
        let order_id = rows[i].0.order_id;
        let cost = line_cost(&rows[i].1);
        let ghost part = models.take(i as int);
        let ghost ids = order_ids(part);
        let ghost row = models[i as int];
        let ghost old_heads = heads@;
        let ghost old_totals = totals@;
        proof {
            assert(models.take(i + 1) =~= part.push(row));
            lemma_order_ids_push(part, row);
            lemma_ids_distinct(part);
            lemma_ids_present(part, order_id);
            lemma_line_total_bound(row.1);
            assert forall|slot: int| 0 <= slot < ids.len() implies rows_of(
                part.push(row),
                #[trigger] ids[slot],
            ) == if ids[slot] == order_id {
                rows_of(part, ids[slot]).push(row)
            } else {
                rows_of(part, ids[slot])
            } by {
                lemma_rows_of_push(part, row, ids[slot]);
            }
            lemma_rows_of_push(part, row, order_id);
        }
        match slots.get(&order_id) {
            Some(found) => {
                let slot = *found;
                proof {
                    let at = choose|at: int| 0 <= at < ids.len() && ids[at] == order_id;
                    assert(slots@[ids[at]] == at);
                    assert(slot_filled(models, i as int, old_heads, old_totals, slot as int));
                    lemma_total_push(rows_of(part, order_id), row);
                }
                let sum = totals[slot] + cost as i128;
                totals.set(slot, sum);
                proof {
                    assert forall|other: int|
                        0 <= other < heads@.len() implies #[trigger] slot_filled(
                        models,
                        i + 1,
                        heads@,
                        totals@,
                        other,
                    ) by {
                        assert(slot_filled(models, i as int, old_heads, old_totals, other));
                    }
                }
            },
            None => {
                proof {
                    assert(!ids.contains(order_id));
                    assert(rows_of(part, order_id) =~= Seq::<JoinRowModel>::empty());
                    lemma_total_push(rows_of(part, order_id), row);
                }
                slots.insert(order_id, heads.len());
                heads.push(i);
                totals.push(cost as i128);
                proof {
                    let new_ids = ids.push(order_id);
                    assert forall|other: int|
                        0 <= other < heads@.len() implies #[trigger] slot_filled(
                        models,
                        i + 1,
                        heads@,
                        totals@,
                        other,
                    ) by {
                        if other < ids.len() {
                            assert(slot_filled(models, i as int, old_heads, old_totals, other));
                        }
                    }
                    assert forall|other_id: u128|
                        slots@.contains_key(other_id) <==> new_ids.contains(other_id) by {
                        if new_ids.contains(other_id) {
                            let at = choose|at: int|
                                0 <= at < new_ids.len() && new_ids[at] == other_id;
                            if at < ids.len() {
                                assert(ids[at] == other_id);
                            }
                        }
                        if ids.contains(other_id) {
                            let at = choose|at: int| 0 <= at < ids.len() && ids[at] == other_id;
                            assert(new_ids[at] == other_id);
                        }
                        assert(new_ids[ids.len() as int] == order_id);
                    }
                }
            },
        }
        i = i + 1;
    }
    assert(models.take(i as int) =~= models);
    (heads, totals)
}

/// Tells whether the total of every order among the rows fits in 64 bits,
/// which is what [`aggregate_many`] asks of its rows.
pub fn order_totals_fit(rows: &Vec<JoinRow>) -> (fit: bool)
    ensures
        fit == totals_fit(row_models(rows@)),
{
    let ghost models = row_models(rows@);
    let ghost ids = order_ids(models);
    let (heads, totals) = group_rows(rows);
    let mut slot: usize = 0;
    while slot < totals.len()
        invariant
            slot <= totals.len(),
            models == row_models(rows@),
            ids == order_ids(models),
            grouped(models, rows@.len() as int, heads@, totals@),
            forall|seen: int|
                0 <= seen < slot ==> fits_total(rows_total(rows_of(models, #[trigger] ids[seen]))),
        decreases totals.len() - slot,
    {
        proof {
            assert(models.take(rows@.len() as int) =~= models);
            assert(slot_filled(models, rows@.len() as int, heads@, totals@, slot as int));
        }
        if totals[slot] < i64::MIN as i128 || totals[slot] > i64::MAX as i128 {
            return false;
        }
        slot = slot + 1;
    }
    proof {
        assert(models.take(rows@.len() as int) =~= models);
        assert forall|order_id: u128| fits_total(
            rows_total(#[trigger] rows_of(models, order_id)),
        ) by {
            lemma_ids_present(models, order_id);
            if ids.contains(order_id) {
                let at = choose|at: int| 0 <= at < ids.len() && ids[at] == order_id;
                assert(fits_total(rows_total(rows_of(models, ids[at]))));
            } else {
                assert(rows_of(models, order_id) =~= Seq::<JoinRowModel>::empty());
            }
        }
    }
    true
}

/// Builds one summary for each order among the rows of one user.
///
/// A summary holds the header of the order's first row and the sum of
/// quantity times price over all of the order's rows; its lines are left
/// out. The summaries stand in the order in which the orders first appear
/// among the rows. The total of every order must fit in 64 bits;
/// [`order_totals_fit`] tells whether it does.
pub fn aggregate_many(rows: &Vec<JoinRow>) -> (list: Vec<OrderDetails>)
    requires
        totals_fit(row_models(rows@)),
    ensures
        details_models(list@) == summaries(row_models(rows@)),
        list@.len() == order_ids(row_models(rows@)).len(),
        forall|slot: int|
            0 <= slot < list@.len() ==> {
                let order_id = order_ids(row_models(rows@))[slot];
                &&& (#[trigger] list@[slot]).order_id == order_id
                &&& list@[slot].order_total == rows_total(rows_of(row_models(rows@), order_id))
                &&& list@[slot].items is None
            },
{
    let ghost models = row_models(rows@);
    let ghost ids = order_ids(models);
    let (heads, totals) = group_rows(rows);
    let mut list: Vec<OrderDetails> = Vec::new();
    let mut slot: usize = 0;
    proof {
        assert(models.take(rows@.len() as int) =~= models);
    }
    while slot < heads.len()
        invariant
            slot <= heads.len(),
            models == row_models(rows@),
            ids == order_ids(models),
            models.take(rows@.len() as int) == models,
            totals_fit(models),
            grouped(models, rows@.len() as int, heads@, totals@),
            list@.len() == slot,
            forall|done: int|
                0 <= done < slot ==> {
                    &&& (#[trigger] list@[done])@ == summary(models, ids[done])
                    &&& list@[done].order_id == ids[done]
                    &&& list@[done].items is None
                },
        decreases heads.len() - slot,
    {
        proof {
            assert(slot_filled(models, rows@.len() as int, heads@, totals@, slot as int));
            let own = rows_of(models, ids[slot as int]);
            assert(fits_total(rows_total(own)));
            lemma_rows_of_own(models, ids[slot as int], 0);
        }
        let order = &rows[heads[slot]].0;
        list.push(
            OrderDetails {
                order_id: order.order_id,
                user_id: order.user_id,
                note: copy_text(&order.note),
                order_total: totals[slot] as i64,
                order_at: order.created_at,
                items: None,
            },
        );
        slot = slot + 1;
    }
    proof {
        assert(details_models(list@) =~= summaries(models));
    }
    list
}

/// Every row among the rows of an order belongs to that order.
pub proof fn lemma_rows_of_own(rows: Seq<JoinRowModel>, order_id: u128, i: int)
    requires
        0 <= i < rows_of(rows, order_id).len(),
    ensures
        rows_of(rows, order_id)[i].0.order_id == order_id,
{
    rows.lemma_filter_pred(of_order(order_id), i);
}

/// The listing holds one summary for each order among the rows and no
/// other: the orders are listed once each, an order is listed exactly when
/// some row belongs to it, and its summary carries the order's id, the sum
/// of quantity times price over the order's rows, and no lines.
pub proof fn lemma_one_summary_per_order(rows: Seq<JoinRowModel>)
    ensures
        summaries(rows).len() == order_ids(rows).len(),
        order_ids(rows).no_duplicates(),
        forall|order_id: u128|
            order_ids(rows).contains(order_id) <==> exists|i: int|
                0 <= i < rows.len() && (#[trigger] rows[i]).0.order_id == order_id,
        forall|slot: int|
            0 <= slot < summaries(rows).len() ==> {
                let order_id = order_ids(rows)[slot];
                &&& (#[trigger] summaries(rows)[slot]).order_id == order_id
                &&& summaries(rows)[slot].order_total == rows_total(rows_of(rows, order_id))
                &&& summaries(rows)[slot].items is None
            },
{
    lemma_ids_distinct(rows);
    assert forall|order_id: u128|
        order_ids(rows).contains(order_id) <==> exists|i: int|
            0 <= i < rows.len() && (#[trigger] rows[i]).0.order_id == order_id by {
        lemma_ids_present(rows, order_id);
    }
    assert forall|slot: int| 0 <= slot < summaries(rows).len() implies (#[trigger] summaries(
        rows,
    )[slot]).order_id == order_ids(rows)[slot] by {
        let order_id = order_ids(rows)[slot];
        assert(order_ids(rows).contains(order_id));
        lemma_ids_present(rows, order_id);
        lemma_rows_of_own(rows, order_id, 0);
    }
}

/// Rows that all belong to one order are listed as that one order: the
/// listing holds the order that [`single_details`] makes of the rows,
/// without its lines.
pub proof fn lemma_listing_of_one_order(rows: Seq<JoinRowModel>)
    requires
        rows.len() > 0,
        forall|i: int|
            0 <= i < rows.len() ==> (#[trigger] rows[i]).0.order_id == rows[0].0.order_id,
    ensures
        order_ids(rows) == seq![rows[0].0.order_id],
        rows_of(rows, rows[0].0.order_id) == rows,
        summaries(rows) == seq![summary(rows, rows[0].0.order_id)],
        summaries(rows)[0].order_total == single_details(rows).order_total,
        summaries(rows)[0].order_id == single_details(rows).order_id,
        summaries(rows)[0].user_id == single_details(rows).user_id,
        summaries(rows)[0].note == single_details(rows).note,
        summaries(rows)[0].order_at == single_details(rows).order_at,
    decreases rows.len(),
{
    reveal(Seq::filter);
    let order_id = rows[0].0.order_id;
    let before = rows.drop_last();
    if before.len() == 0 {
        assert(order_ids(before) =~= Seq::<u128>::empty());
        assert(order_ids(rows) =~= seq![order_id]);
        assert(rows_of(before, order_id) =~= Seq::<JoinRowModel>::empty());
        assert(rows_of(rows, order_id) =~= rows);
    } else {
        assert forall|i: int| 0 <= i < before.len() implies (#[trigger] before[i]).0.order_id
            == before[0].0.order_id by {
            assert(before[i] == rows[i]);
            assert(before[0] == rows[0]);
        }
        lemma_listing_of_one_order(before);
        assert(order_ids(before)[0] == order_id);
        assert(rows.last() == rows[rows.len() - 1]);
        assert(rows_of(rows, order_id) =~= rows);
    }
    assert(summaries(rows) =~= seq![summary(rows, order_id)]);
}

} // verus!
