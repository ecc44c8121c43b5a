//! The order creation workflow: authorize the request, store the order's
//! header, store its lines, answer with the header.
//!
//! The workflow decides and the caller acts. Each step takes what happened
//! outside as an event and gives back the next thing to do. Nothing is
//! written before the authorizer has granted the request, no line is written
//! before the header is stored, and no step is tried twice.

use vstd::prelude::*;
use crate::aggregate::rows_total;
use crate::auth::{
    auth_next, auth_step, lemma_known_user, AuthAction, AuthActionModel, AuthEvent,
    AuthEventModel, AuthState, CredentialModel, LookupModel, Verdict,
};
use crate::creation::{
    insert_new_order, insert_new_order_items, item_rows_of, joined, lemma_created_total,
    submitted_total,
};
use crate::failure::Failure;
use crate::model::{
    copy_text, item_models, new_item_models, text_of, NewOrder, NewOrderItem,
    NewOrderItemModel, Order, OrderItem, OrderItemModel, OrderModel, UserModel,
};
use crate::outside::fresh_id;

verus! {

/// How far the creation of an order has come.
#[derive(Debug, PartialEq, Eq)]
pub enum Stage {
    /// The request is being authorized.
    Authorizing(AuthState),
    /// The header is being stored.
    InsertingHeader(Order),
    /// The header is stored and the lines are being stored.
    InsertingItems(Order),
    /// Header and lines are stored.
    Done(Order),
    /// The request failed.
    Failed(Failure),
}

/// The model of a [`Stage`].
pub enum StageModel {
    Authorizing(AuthState),
    InsertingHeader(OrderModel),
    InsertingItems(OrderModel),
    Done(OrderModel),
    Failed(Failure),
}

impl View for Stage {
    type V = StageModel;

    open spec fn view(&self) -> StageModel {
        match self {
            Stage::Authorizing(auth) => StageModel::Authorizing(*auth),
            Stage::InsertingHeader(order) => StageModel::InsertingHeader(order@),
            Stage::InsertingItems(order) => StageModel::InsertingItems(order@),
            Stage::Done(order) => StageModel::Done(order@),
            Stage::Failed(failure) => StageModel::Failed(*failure),
        }
    }
}

/// The creation of one order, from the request to the answer.
#[derive(Debug, PartialEq, Eq)]
pub struct OrderCreation {
    /// The identifier that the order gets.
    pub order_id: u128,
    /// The note that the client submitted.
    pub note: Option<String>,
    /// The lines that the client submitted.
    pub items: Vec<NewOrderItem>,
    /// How far the creation has come.
    pub stage: Stage,
}

/// The model of an [`OrderCreation`].
pub struct OrderCreationModel {
    pub order_id: u128,
    pub note: Option<Seq<char>>,
    pub items: Seq<NewOrderItemModel>,
    pub stage: StageModel,
}

impl View for OrderCreation {
    type V = OrderCreationModel;

    open spec fn view(&self) -> OrderCreationModel {
        OrderCreationModel {
            order_id: self.order_id,
            note: text_of(self.note),
            items: new_item_models(self.items@),
            stage: self.stage@,
        }
    }
}

/// What happened outside the workflow.
#[derive(Debug, PartialEq, Eq)]
pub enum Event {
    /// The authorizer got an answer.
    Auth(AuthEvent),
    /// The store has written the header.
    HeaderStored,
    /// The store failed to write the header.
    HeaderFailed,
    /// The store has written the lines.
    ItemsStored,
    /// The store failed to write the lines.
    ItemsFailed,
}

/// The model of an [`Event`].
pub enum EventModel {
    Auth(AuthEventModel),
    HeaderStored,
    HeaderFailed,
    ItemsStored,
    ItemsFailed,
}

impl View for Event {
    type V = EventModel;

    open spec fn view(&self) -> EventModel {
        match self {
            Event::Auth(event) => EventModel::Auth(event@),
            Event::HeaderStored => EventModel::HeaderStored,
            Event::HeaderFailed => EventModel::HeaderFailed,
            Event::ItemsStored => EventModel::ItemsStored,
            Event::ItemsFailed => EventModel::ItemsFailed,
        }
    }
}

/// What the caller is to do next.
#[derive(Debug, PartialEq, Eq)]
pub enum Action {
    /// Have the token service verify this token.
    VerifyToken(String),
    /// Ask the user store for the users with this id.
    FindUser(u128),
    /// Write this order header to the store.
    InsertHeader(Order),
    /// Write these lines to the store, in one batch.
    InsertItems(Vec<OrderItem>),
    /// Answer with the header of the order that was created.
    Created(Order),
    /// Answer with this failure.
    Failed(Failure),
}

/// The model of an [`Action`].
pub enum ActionModel {
    VerifyToken(Seq<char>),
    FindUser(u128),
    InsertHeader(OrderModel),
    InsertItems(Seq<OrderItemModel>),
    Created(OrderModel),
    Failed(Failure),
}

impl View for Action {
    type V = ActionModel;

    open spec fn view(&self) -> ActionModel {
        match self {
            Action::VerifyToken(token) => ActionModel::VerifyToken(token@),
            Action::FindUser(user_id) => ActionModel::FindUser(*user_id),
            Action::InsertHeader(order) => ActionModel::InsertHeader(order@),
            Action::InsertItems(rows) => ActionModel::InsertItems(item_models(rows@)),
            Action::Created(order) => ActionModel::Created(order@),
            Action::Failed(failure) => ActionModel::Failed(*failure),
        }
    }
}

/// The same creation at another stage.
pub open spec fn at_stage(creation: OrderCreationModel, stage: StageModel) -> OrderCreationModel {
    OrderCreationModel {
        order_id: creation.order_id,
        note: creation.note,
        items: creation.items,
        stage,
    }
}

/// The stage of a creation whose request is with the authorizer.
pub open spec fn authorizing(auth: AuthState) -> StageModel {
    StageModel::Authorizing(auth)
}

/// Whether a step ended the creation with the given failure.
pub open spec fn step_failed(
    before: OrderCreationModel,
    failure: Failure,
    after: OrderCreationModel,
    action: ActionModel,
) -> bool {
    &&& after == at_stage(before, StageModel::Failed(failure))
    &&& action == ActionModel::Failed(failure)
}

/// Whether the header is the one that the creation writes once the
/// authorizer has granted the request to `user_id`: the creation's order id,
/// that user and the submitted note. Its time of creation is the moment of
/// the step.
pub open spec fn header_of(order: OrderModel, creation: OrderCreationModel, user_id: u128) -> bool {
    &&& order.order_id == creation.order_id
    &&& order.user_id == user_id
    &&& order.note == creation.note
}

/// The workflow's rule: whether, on the given event, a step may lead from
/// `before` to `after` with the given action.
///
/// - While authorizing, the workflow follows [`auth_next`]. What the
///   authorizer asks for is handed on. A denial fails the creation with the
///   authorizer's failure. A grant makes the header and asks for it to be
///   written.
/// - Once the header is written, the lines are made, one for each submitted
///   line, and asked to be written; where that is done, the creation is
///   done and answers with the header.
/// - A write that failed fails the creation with `InternalError`, and so
///   does an event that the workflow did not wait for.
/// - A creation that is done or has failed stays as it is and repeats its
///   answer.
///
/// Only the identifiers and the times of creation of new rows are left open.
pub open spec fn creation_step(
    before: OrderCreationModel,
    event: EventModel,
    after: OrderCreationModel,
    action: ActionModel,
) -> bool {
    match before.stage {
        StageModel::Authorizing(auth) => match event {
            EventModel::Auth(answer) => match auth_next(auth, answer).1 {
                AuthActionModel::VerifyToken(token) => {
                    &&& after == at_stage(before, authorizing(auth_next(auth, answer).0))
                    &&& action == ActionModel::VerifyToken(token)
                },
                AuthActionModel::FindUser(user_id) => {
                    &&& after == at_stage(before, authorizing(auth_next(auth, answer).0))
                    &&& action == ActionModel::FindUser(user_id)
                },
                AuthActionModel::Grant(user_id) => {
                    &&& action matches ActionModel::InsertHeader(order)
                    &&& header_of(order, before, user_id)
                    &&& after == at_stage(before, StageModel::InsertingHeader(order))
                },
                AuthActionModel::Deny(failure) => step_failed(before, failure, after, action),
            },
            _ => step_failed(before, Failure::InternalError, after, action),
        },
        StageModel::InsertingHeader(order) => match event {
            EventModel::HeaderStored => {
                &&& action matches ActionModel::InsertItems(rows)
                &&& item_rows_of(rows, before.order_id, before.items)
                &&& after == at_stage(before, StageModel::InsertingItems(order))
            },
            _ => step_failed(before, Failure::InternalError, after, action),
        },
        StageModel::InsertingItems(order) => match event {
            EventModel::ItemsStored => {
                &&& after == at_stage(before, StageModel::Done(order))
                &&& action == ActionModel::Created(order)
            },
            _ => step_failed(before, Failure::InternalError, after, action),
        },
        StageModel::Done(order) => after == before && action == ActionModel::Created(order),
        StageModel::Failed(failure) => {
            &&& after == before
            &&& action == ActionModel::Failed(failure)
        },
    }
}

impl OrderCreation {
    /// Starts the creation, under the given identifier, of the order that a
    /// client submitted: the request waits to be authorized.
    pub fn start(order_id: u128, form: NewOrder) -> (creation: OrderCreation)
        ensures
            creation@ == (OrderCreationModel {
                order_id,
                note: form@.note,
                items: form@.items,
                stage: StageModel::Authorizing(AuthState::AwaitingCredential),
            }),
    {
        OrderCreation {
            order_id,
            note: form.note,
            items: form.items,
            stage: Stage::Authorizing(AuthState::AwaitingCredential),
        }
    }

    /// Starts the creation of the order that a client submitted, under a
    /// fresh identifier.
    pub fn begin(form: NewOrder) -> (creation: OrderCreation)
        ensures
            creation@ == (OrderCreationModel {
                order_id: creation.order_id,
                note: form@.note,
                items: form@.items,
                stage: StageModel::Authorizing(AuthState::AwaitingCredential),
            }),
    {
        OrderCreation::start(fresh_id(), form)
    }

    /// Moves the creation by one event, as [`creation_step`] rules.
    pub fn step(self, event: Event) -> (next: (OrderCreation, Action))
        ensures
            creation_step(self@, event@, next.0@, next.1@),
    {
        let OrderCreation { order_id, note, items, stage } = self;
        let (stage, action) = match stage {
            Stage::Authorizing(auth) => match event {
                Event::Auth(answer) => {
                    let (auth, asked) = auth_step(auth, answer);
                    match asked {
                        AuthAction::VerifyToken(token) => (
                            Stage::Authorizing(auth),
                            Action::VerifyToken(token),
                        ),
                        AuthAction::FindUser(user_id) => (
                            Stage::Authorizing(auth),
                            Action::FindUser(user_id),
                        ),
                        AuthAction::Grant(user_id) => {
                            let order = insert_new_order(order_id, user_id, copy_text(&note));
                            let header = order.clone();
                            (Stage::InsertingHeader(order), Action::InsertHeader(header))
                        },
                        AuthAction::Deny(failure) => failed(failure),
                    }
                },
                _ => failed(Failure::InternalError),
            },
            Stage::InsertingHeader(order) => match event {
                Event::HeaderStored => {
                    let rows = insert_new_order_items(order_id, &items);
                    (Stage::InsertingItems(order), Action::InsertItems(rows))
                },
                _ => failed(Failure::InternalError),
            },
            Stage::InsertingItems(order) => match event {
                Event::ItemsStored => {
                    let header = order.clone();
                    (Stage::Done(order), Action::Created(header))
                },
                _ => failed(Failure::InternalError),
            },
            Stage::Done(order) => {
                let header = order.clone();
                (Stage::Done(order), Action::Created(header))
            },
            Stage::Failed(failure) => failed(failure),
        };
        (OrderCreation { order_id, note, items, stage }, action)
    }
}

/// The stage and the answer of a creation that failed.
fn failed(failure: Failure) -> (next: (Stage, Action))
    ensures
        next.0@ == StageModel::Failed(failure),
        next.1@ == ActionModel::Failed(failure),
{
    (Stage::Failed(failure), Action::Failed(failure))
}

/// A step never touches what was submitted: the order id, the note and the
/// lines stay as they were.
pub proof fn lemma_step_keeps_submission(
    before: OrderCreationModel,
    event: EventModel,
    after: OrderCreationModel,
    action: ActionModel,
)
    requires
        creation_step(before, event, after, action),
    ensures
        after.order_id == before.order_id,
        after.note == before.note,
        after.items == before.items,
{
}

/// Nothing is written before the authorizer has granted the request, and no line
/// before the header. A header is asked to be written only on the event on
/// which the authorizer grants, and it belongs to the user to whom it
/// granted. Lines are asked to be written only once the header is stored,
/// and they are the submitted lines under the creation's order id.
pub proof fn lemma_writes_in_order(
    before: OrderCreationModel,
    event: EventModel,
    after: OrderCreationModel,
    action: ActionModel,
)
    requires
        creation_step(before, event, after, action),
    ensures
        action matches ActionModel::InsertHeader(order) ==> {
            &&& before.stage matches StageModel::Authorizing(auth)
            &&& event matches EventModel::Auth(answer)
            &&& auth_next(auth, answer).0 == AuthState::Granted(order.user_id)
            &&& header_of(order, before, order.user_id)
            &&& after.stage == StageModel::InsertingHeader(order)
        },
        action matches ActionModel::InsertItems(rows) ==> {
            &&& before.stage matches StageModel::InsertingHeader(order)
            &&& event == EventModel::HeaderStored
            &&& item_rows_of(rows, before.order_id, before.items)
            &&& after.stage == StageModel::InsertingItems(order)
        },
        action matches ActionModel::Created(order) ==> {
            &&& after.stage == StageModel::Done(order)
            &&& before.stage == StageModel::Done(order) || (before.stage
                == StageModel::InsertingItems(order) && event == EventModel::ItemsStored)
        },
{
}

/// A denial ends the creation with the authorizer's failure, and a
/// creation that has ended stays ended: it asks for no write again.
pub proof fn lemma_failure_is_final(
    before: OrderCreationModel,
    event: EventModel,
    after: OrderCreationModel,
    action: ActionModel,
)
    requires
        creation_step(before, event, after, action),
    ensures
        before.stage matches StageModel::Authorizing(auth) ==> (event matches EventModel::Auth(
            answer,
        ) ==> (auth_next(auth, answer).0 matches AuthState::Denied(failure) ==> step_failed(
            before,
            failure,
            after,
            action,
        ))),
        before.stage matches StageModel::Failed(failure) ==> after == before && action
            == ActionModel::Failed(failure),
        before.stage matches StageModel::Done(order) ==> after == before && action
            == ActionModel::Created(order),
        !(before.stage is Done) && (event is HeaderFailed || event is ItemsFailed)
            ==> after.stage is Failed,
{
}

/// A creation whose request is granted and whose writes succeed
/// creates the order as submitted. Step by step it asks for the token to be
/// verified, for the user to be found, for the header to be written under
/// the user that the token names, and for one line to be written for each
/// submitted line; then it is done and answers with the header. Read back,
/// the order costs what the submitted lines cost; without lines, nothing.
pub proof fn lemma_creation_succeeds(
    token: Seq<char>,
    user_id: u128,
    users: Seq<UserModel>,
    at: int,
    stages: Seq<OrderCreationModel>,
    actions: Seq<ActionModel>,
)
    requires
        0 <= at < users.len(),
        users[at].user_id == user_id,
        stages.len() == 6,
        actions.len() == 5,
        stages[0].stage == StageModel::Authorizing(AuthState::AwaitingCredential),
        creation_step(
            stages[0],
            EventModel::Auth(AuthEventModel::Presented(CredentialModel::Bearer(token))),
            stages[1],
            actions[0],
        ),
        creation_step(
            stages[1],
            EventModel::Auth(AuthEventModel::Judged(Verdict::Accepted(user_id))),
            stages[2],
            actions[1],
        ),
        creation_step(
            stages[2],
            EventModel::Auth(AuthEventModel::Resolved(LookupModel::Rows(users))),
            stages[3],
            actions[2],
        ),
        creation_step(stages[3], EventModel::HeaderStored, stages[4], actions[3]),
        creation_step(stages[4], EventModel::ItemsStored, stages[5], actions[4]),
    ensures
        actions[0] == ActionModel::VerifyToken(token),
        actions[1] == ActionModel::FindUser(user_id),
        actions[2] matches ActionModel::InsertHeader(order) && {
            &&& header_of(order, stages[0], user_id)
            &&& actions[3] matches ActionModel::InsertItems(rows)
            &&& item_rows_of(rows, stages[0].order_id, stages[0].items)
            &&& rows_total(joined(order, rows)) == submitted_total(stages[0].items)
            &&& stages[0].items.len() == 0 ==> rows.len() == 0 && rows_total(joined(order, rows))
                == 0
            &&& actions[4] == ActionModel::Created(order)
            &&& stages[5].stage == StageModel::Done(order)
        },
{
    lemma_known_user(token, user_id, users, at);
    let order = actions[2]->InsertHeader_0;
    let rows = actions[3]->InsertItems_0;
    lemma_created_total(order, rows, stages[0].items);
}

} // verus!
