//! Lookups over what the store returned: a user by id or by email, one
//! order of one user with its lines, all orders of one user as summaries.
//!
//! Each lookup takes the rows that a query gave and keeps, by itself, only
//! those that answer the question asked. A row of another user or of
//! another order never reaches the result, whatever the query let through.

use vstd::prelude::*;
use crate::aggregate::{
    aggregate_many, aggregate_single, fits_total, lemma_ids_present, of_order, order_ids, rows_of,
    rows_total, single_details, summaries, totals_fit,
};
use crate::failure::Failure;
use crate::model::{
    details_models, row_models, user_models, JoinRow, JoinRowModel, OrderDetails,
    OrderDetailsModel, User, UserModel,
};

verus! {

/// The first element of a sequence, if it has one.
pub open spec fn first_of<T>(s: Seq<T>) -> Option<T> {
    if s.len() > 0 {
        Some(s[0])
    } else {
        None
    }
}

/// The test that a user has the given id.
pub open spec fn with_uid(uid: u128) -> spec_fn(UserModel) -> bool {
    |user: UserModel| user.user_id == uid
}

/// The test that a user has the given email address.
pub open spec fn with_email(email: Seq<char>) -> spec_fn(UserModel) -> bool {
    |user: UserModel| user.email == email
}

/// The test that a row belongs to the given user.
pub open spec fn owned_by(user_id: u128) -> spec_fn(JoinRowModel) -> bool {
    |row: JoinRowModel| row.0.user_id == user_id
}

/// The test that a row belongs to the given order of the given user.
pub open spec fn owned_order(user_id: u128, order_id: u128) -> spec_fn(JoinRowModel) -> bool {
    |row: JoinRowModel| row.0.user_id == user_id && row.0.order_id == order_id
}

/// The first of the users that has the given id.
pub open spec fn user_by_uid(users: Seq<UserModel>, uid: u128) -> Option<UserModel> {
    first_of(users.filter(with_uid(uid)))
}

/// The first of the users that has the given email address.
pub open spec fn user_by_email(users: Seq<UserModel>, email: Seq<char>) -> Option<UserModel> {
    first_of(users.filter(with_email(email)))
}

/// The rows of one order of one user, in row order.
pub open spec fn order_rows(rows: Seq<JoinRowModel>, user_id: u128, order_id: u128) -> Seq<
    JoinRowModel,
> {
    rows.filter(owned_order(user_id, order_id))
}

/// The rows of the orders of one user, in row order.
pub open spec fn user_rows(rows: Seq<JoinRowModel>, user_id: u128) -> Seq<JoinRowModel> {
    rows.filter(owned_by(user_id))
}

/// The model of an optional user.
pub open spec fn found_user(found: Option<User>) -> Option<UserModel> {
    match found {
        Some(user) => Some(user@),
        None => None,
    }
}

/// The model of the outcome of a lookup of one order.
pub open spec fn found_details(found: Result<OrderDetails, Failure>) -> Result<
    OrderDetailsModel,
    Failure,
> {
    match found {
        Ok(details) => Ok(details@),
        Err(failure) => Err(failure),
    }
}

/// What a lookup of one order of one user gives: the order made up of the
/// user's rows of that order, or `NotFound` where there is no such row.
pub open spec fn order_by_id(rows: Seq<JoinRowModel>, user_id: u128, order_id: u128) -> Result<
    OrderDetailsModel,
    Failure,
> {
    let own = order_rows(rows, user_id, order_id);
    if own.len() > 0 {
        Ok(single_details(own))
    } else {
        Err(Failure::NotFound)
    }
}

/// Filtering an appended sequence: the new element is kept or dropped by
/// itself.
pub proof fn lemma_filter_push<T>(s: Seq<T>, last: T, keep: spec_fn(T) -> bool)
    ensures
        s.push(last).filter(keep) == if keep(last) {
            s.filter(keep).push(last)
        } else {
            s.filter(keep)
        },
{
    reveal(Seq::filter);
    assert(s.push(last).drop_last() =~= s);
}

/// Filtering leaves nothing where no element is to be kept.
pub proof fn lemma_filter_none<T>(s: Seq<T>, keep: spec_fn(T) -> bool)
    requires
        forall|i: int| 0 <= i < s.len() ==> !keep(#[trigger] s[i]),
    ensures
        s.filter(keep).len() == 0,
    decreases s.len(),
{
    reveal(Seq::filter);
    if s.len() > 0 {
        lemma_filter_none(s.drop_last(), keep);
    }
}

/// The first element kept by a filter is the first that is to be kept.
pub proof fn lemma_filter_first<T>(s: Seq<T>, keep: spec_fn(T) -> bool, at: int)
    requires
        0 <= at < s.len(),
        keep(s[at]),
        forall|i: int| 0 <= i < at ==> !keep(#[trigger] s[i]),
    ensures
        s.filter(keep).len() > 0,
        s.filter(keep)[0] == s[at],
    decreases s.len(),
{
    reveal(Seq::filter);
    if at == s.len() - 1 {
        lemma_filter_none(s.drop_last(), keep);
    } else {
        lemma_filter_first(s.drop_last(), keep, at);
    }
}

/// Finds the user with the given id among the users that the store
/// returned: the first such user, or `None` where no user has that id.
pub fn find_user_by_uid(uid: u128, users: &Vec<User>) -> (found: Option<User>)
    ensures
        found_user(found) == user_by_uid(user_models(users@), uid),
        found matches Some(user) ==> user.user_id == uid,
        found is None <==> forall|i: int| 0 <= i < users@.len() ==> users@[i].user_id != uid,
{
    let ghost models = user_models(users@);
    let ghost keep = with_uid(uid);
    let mut i: usize = 0;
    while i < users.len()
        invariant
            i <= users.len(),
            models == user_models(users@),
            keep == with_uid(uid),
            forall|j: int| 0 <= j < i ==> users@[j].user_id != uid,
        decreases users.len() - i,
    {
        if users[i].user_id == uid {
            proof {
                assert forall|j: int| 0 <= j < i implies !keep(#[trigger] models[j]) by {
                    assert(users@[j].user_id != uid);
                }
                lemma_filter_first(models, keep, i as int);
            }
            return Some(users[i].clone());
        }
        i = i + 1;
    }
    proof {
        assert forall|j: int| 0 <= j < models.len() implies !keep(#[trigger] models[j]) by {
            assert(users@[j].user_id != uid);
        }
        lemma_filter_none(models, keep);
    }
    None
}

/// Finds the user with the given email address among the users that the
/// store returned: the first such user, or `None` where no user has that
/// address.
pub fn find_user_by_email(email_str: &str, users: &Vec<User>) -> (found: Option<User>)
    ensures
        found_user(found) == user_by_email(user_models(users@), email_str@),
        found matches Some(user) ==> user.email@ == email_str@,
        found is None <==> forall|i: int| 0 <= i < users@.len() ==> users@[i].email@ != email_str@,
{
    let ghost models = user_models(users@);
    let ghost keep = with_email(email_str@);
    let wanted = email_str.to_owned();
    let mut i: usize = 0;
    while i < users.len()
        invariant
            i <= users.len(),
            models == user_models(users@),
            wanted@ == email_str@,
            keep == with_email(email_str@),
            forall|j: int| 0 <= j < i ==> users@[j].email@ != email_str@,
        decreases users.len() - i,
    {
        if users[i].email == wanted {
            proof {
                assert forall|j: int| 0 <= j < i implies !keep(#[trigger] models[j]) by {
                    assert(users@[j].email@ != email_str@);
                }
                lemma_filter_first(models, keep, i as int);
            }
            return Some(users[i].clone());
        }
        i = i + 1;
    }
    proof {
        assert forall|j: int| 0 <= j < models.len() implies !keep(#[trigger] models[j]) by {
            assert(users@[j].email@ != email_str@);
        }
        lemma_filter_none(models, keep);
    }
    None
}

/// Keeps the rows that pass a test, in row order.
fn select_rows(rows: &Vec<JoinRow>, user_id: u128, order_id: Option<u128>) -> (kept: Vec<JoinRow>)
    ensures
        row_models(kept@) == match order_id {
            Some(id) => order_rows(row_models(rows@), user_id, id),
            None => user_rows(row_models(rows@), user_id),
        },
{
    let ghost models = row_models(rows@);
    let ghost keep = match order_id {
        Some(id) => owned_order(user_id, id),
        None => owned_by(user_id),
    };
    let mut kept: Vec<JoinRow> = Vec::new();
    let mut i: usize = 0;
    proof {
        reveal(Seq::filter);
        assert(row_models(kept@) =~= models.take(0).filter(keep));
    }
    while i < rows.len()
        invariant
            i <= rows.len(),
            models == row_models(rows@),
            keep == match order_id {
                Some(id) => owned_order(user_id, id),
                None => owned_by(user_id),
            },
            row_models(kept@) == models.take(i as int).filter(keep),
        decreases rows.len() - i,
    {
        let order = &rows[i].0;
        let wanted = order.user_id == user_id && match order_id {
            Some(id) => order.order_id == id,
            None => true,
        };
        proof {
            assert(models.take(i + 1) =~= models.take(i as int).push(models[i as int]));
            lemma_filter_push(models.take(i as int), models[i as int], keep);
            assert(wanted == keep(models[i as int]));
        }
        if wanted {
            let ghost before = kept@;
            let row = (rows[i].0.clone(), rows[i].1.clone());
            kept.push(row);
            proof {
                assert(row_models(kept@) =~= row_models(before).push(models[i as int]));
            }
        }
        i = i + 1;
    }
    proof {
        assert(models.take(i as int) =~= models);
    }
    kept
}

/// Keeps the rows of one order of one user, in row order.
pub fn select_order_rows(user_id: u128, order_id: u128, rows: &Vec<JoinRow>) -> (kept: Vec<JoinRow>)
    ensures
        row_models(kept@) == order_rows(row_models(rows@), user_id, order_id),
{
    select_rows(rows, user_id, Some(order_id))
}

/// Keeps the rows of the orders of one user, in row order.
pub fn select_user_rows(user_id: u128, rows: &Vec<JoinRow>) -> (kept: Vec<JoinRow>)
    ensures
        row_models(kept@) == user_rows(row_models(rows@), user_id),
{
    select_rows(rows, user_id, None)
}

/// Looks one order of one user up among the rows that the store returned.
///
/// Only the rows of that order that belong to that user count. With such
/// rows the result is the order with its lines, as [`aggregate_single`]
/// builds it; without, the lookup fails with `NotFound`, also where the
/// order exists and belongs to someone else. The order's total must fit in
/// 64 bits.
pub fn find_order_by_id(user_id_arg: u128, oid: u128, rows: &Vec<JoinRow>) -> (found: Result<
    OrderDetails,
    Failure,
>)
    requires
        fits_total(rows_total(order_rows(row_models(rows@), user_id_arg, oid))),
    ensures
        found_details(found) == order_by_id(row_models(rows@), user_id_arg, oid),
        found matches Ok(details) ==> details.user_id == user_id_arg && details.order_id == oid
            && details.items is Some,
        found matches Err(failure) ==> failure == Failure::NotFound,
{
    let own = select_order_rows(user_id_arg, oid, rows);
    proof {
        if own@.len() > 0 {
            let models = row_models(rows@);
            assert(row_models(own@).len() > 0);
            models.lemma_filter_pred(owned_order(user_id_arg, oid), 0);
        }
    }
    aggregate_single(&own)
}

/// Lists the orders of one user among the rows that the store returned,
/// one summary for each order.
///
/// Only the rows that belong to that user count. The summaries are built as
/// [`aggregate_many`] builds them and stand in the order in which the orders
/// first appear among the rows. The total of every order of the user must
/// fit in 64 bits.
pub fn find_all_orders(uid: u128, rows: &Vec<JoinRow>) -> (list: Vec<OrderDetails>)
    requires
        totals_fit(user_rows(row_models(rows@), uid)),
    ensures
        details_models(list@) == summaries(user_rows(row_models(rows@), uid)),
        list@.len() == order_ids(user_rows(row_models(rows@), uid)).len(),
        forall|slot: int|
            0 <= slot < list@.len() ==> {
                &&& (#[trigger] list@[slot]).user_id == uid
                &&& list@[slot].items is None
            },
{
    let own = select_user_rows(uid, rows);
    let list = aggregate_many(&own);
    proof {
        let models = row_models(rows@);
        let mine = user_rows(models, uid);
        assert forall|slot: int| 0 <= slot < list@.len() implies (#[trigger] list@[slot]).user_id
            == uid by {
            let order_id = order_ids(mine)[slot];
            assert(list@[slot]@ == details_models(list@)[slot]);
            assert(order_ids(mine).contains(order_id));
            lemma_ids_present(mine, order_id);
            let first = rows_of(mine, order_id)[0];
            assert(rows_of(mine, order_id).contains(first));
            mine.lemma_filter_contains_rev(of_order(order_id), first);
            let at = choose|at: int| 0 <= at < mine.len() && mine[at] == first;
            models.lemma_filter_pred(owned_by(uid), at);
        }
    }
    list
}

/// An order is never read through another user's id: where every row of the
/// order belongs to someone else, looking the order up fails with
/// `NotFound`.
pub proof fn lemma_order_of_another_user(rows: Seq<JoinRowModel>, user_id: u128, order_id: u128)
    requires
        forall|i: int|
            0 <= i < rows.len() && (#[trigger] rows[i]).0.order_id == order_id ==> rows[i].0.user_id
                != user_id,
    ensures
        order_by_id(rows, user_id, order_id) == Err::<OrderDetailsModel, Failure>(
            Failure::NotFound,
        ),
{
    lemma_filter_none(rows, owned_order(user_id, order_id));
}

/// Whatever the rows hold, an order that is found belongs to the user who
/// asked and is the order asked for.
pub proof fn lemma_found_order_is_own(rows: Seq<JoinRowModel>, user_id: u128, order_id: u128)
    ensures
        order_by_id(rows, user_id, order_id) matches Ok(details) ==> details.user_id == user_id
            && details.order_id == order_id,
{
    if order_rows(rows, user_id, order_id).len() > 0 {
        rows.lemma_filter_pred(owned_order(user_id, order_id), 0);
    }
}

/// Filtering twice by one test keeps what filtering once keeps.
pub proof fn lemma_filter_twice<T>(s: Seq<T>, keep: spec_fn(T) -> bool)
    ensures
        s.filter(keep).filter(keep) == s.filter(keep),
    decreases s.len(),
{
    reveal(Seq::filter);
    if s.len() > 0 {
        lemma_filter_twice(s.drop_last(), keep);
        assert(s.drop_last().push(s.last()) =~= s);
        lemma_filter_push(s.drop_last(), s.last(), keep);
        if keep(s.last()) {
            lemma_filter_push(s.drop_last().filter(keep), s.last(), keep);
        }
    }
}

/// Filtering by one test and then by another keeps what passes both.
pub proof fn lemma_filter_both<T>(
    s: Seq<T>,
    first: spec_fn(T) -> bool,
    second: spec_fn(T) -> bool,
    both: spec_fn(T) -> bool,
)
    requires
        forall|x: T| #[trigger] both(x) <==> first(x) && second(x),
    ensures
        s.filter(first).filter(second) == s.filter(both),
    decreases s.len(),
{
    reveal(Seq::filter);
    if s.len() > 0 {
        lemma_filter_both(s.drop_last(), first, second, both);
        assert(s.drop_last().push(s.last()) =~= s);
        lemma_filter_push(s.drop_last(), s.last(), first);
        lemma_filter_push(s.drop_last(), s.last(), both);
        if first(s.last()) {
            lemma_filter_push(s.drop_last().filter(first), s.last(), second);
        }
    }
}

/// Selecting the rows of an order beforehand changes nothing: the lookup
/// gives the same on the selected rows as on all rows.
pub proof fn lemma_lookup_after_selection(rows: Seq<JoinRowModel>, user_id: u128, order_id: u128)
    ensures
        order_rows(order_rows(rows, user_id, order_id), user_id, order_id) == order_rows(
            rows,
            user_id,
            order_id,
        ),
        order_by_id(order_rows(rows, user_id, order_id), user_id, order_id) == order_by_id(
            rows,
            user_id,
            order_id,
        ),
        user_rows(user_rows(rows, user_id), user_id) == user_rows(rows, user_id),
{
    lemma_filter_twice(rows, owned_order(user_id, order_id));
    lemma_filter_twice(rows, owned_by(user_id));
}

/// The listing and the lookup agree: the summary that the listing of a
/// user's orders holds for an order is what looking that order up gives,
/// without the lines.
pub proof fn lemma_listing_agrees_with_lookup(rows: Seq<JoinRowModel>, user_id: u128, slot: int)
    requires
        0 <= slot < order_ids(user_rows(rows, user_id)).len(),
    ensures
        order_by_id(rows, user_id, order_ids(user_rows(rows, user_id))[slot]) matches Ok(details)
            && {
            let listed = summaries(user_rows(rows, user_id))[slot];
            &&& listed.order_id == details.order_id
            &&& listed.user_id == details.user_id
            &&& listed.note == details.note
            &&& listed.order_total == details.order_total
            &&& listed.order_at == details.order_at
            &&& listed.items is None
        },
{
    let mine = user_rows(rows, user_id);
    let order_id = order_ids(mine)[slot];
    lemma_filter_both(rows, owned_by(user_id), of_order(order_id), owned_order(user_id, order_id));
    assert(rows_of(mine, order_id) == order_rows(rows, user_id, order_id));
    assert(order_ids(mine).contains(order_id));
    lemma_ids_present(mine, order_id);
}

} // verus!
