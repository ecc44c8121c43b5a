use chrono::NaiveDate;
use order_service::aggregate::{aggregate_single, checked_total};
use order_service::auth::{AuthEvent, AuthState, Credential, Lookup, Verdict};
use order_service::failure::Failure;
use order_service::model::{JoinRow, NewOrder, NewOrderItem, Order, OrderItem, User};
use order_service::store::find_order_by_id;
use order_service::workflow::{Action, Event, OrderCreation, Stage};

fn flow_user(user_id: u128) -> User {
    User {
        user_id,
        first_name: "Ann".to_string(),
        last_name: "Doe".to_string(),
        email: "ann@example.com".to_string(),
        password: "secret".to_string(),
        created_at: NaiveDate::from_ymd_opt(2020, 1, 1).unwrap().and_hms_opt(0, 0, 0).unwrap(),
    }
}

fn flow_item(description: &str, qty: i32, price: i32) -> NewOrderItem {
    NewOrderItem { description: description.to_string(), qty, price }
}

fn flow_bearer() -> Event {
    Event::Auth(AuthEvent::Presented(Credential::Bearer("a.b.c".to_string())))
}

/// Runs a creation whose request is granted to `user_id` and whose writes
/// succeed, and gives back what was written.
fn flow_create(form: NewOrder, user_id: u128) -> (Order, Vec<OrderItem>, Order) {
    let creation = OrderCreation::begin(form);
    let order_id = creation.order_id;
    let (creation, action) = creation.step(flow_bearer());
    assert_eq!(action, Action::VerifyToken("a.b.c".to_string()));
    let (creation, action) =
        creation.step(Event::Auth(AuthEvent::Judged(Verdict::Accepted(user_id))));
    assert_eq!(action, Action::FindUser(user_id));
    let (creation, action) =
        creation.step(Event::Auth(AuthEvent::Resolved(Lookup::Rows(vec![flow_user(user_id)]))));
    let header = match action {
        Action::InsertHeader(order) => order,
        other => panic!("expected the header to be written, got {:?}", other),
    };
    assert_eq!(header.order_id, order_id);
    assert_eq!(header.user_id, user_id);
    assert_eq!(creation.stage, Stage::InsertingHeader(header.clone()));
    let (creation, action) = creation.step(Event::HeaderStored);
    let rows = match action {
        Action::InsertItems(rows) => rows,
        other => panic!("expected the lines to be written, got {:?}", other),
    };
    assert_eq!(creation.stage, Stage::InsertingItems(header.clone()));
    let (creation, action) = creation.step(Event::ItemsStored);
    let answer = match action {
        Action::Created(order) => order,
        other => panic!("expected the order to be created, got {:?}", other),
    };
    assert_eq!(creation.stage, Stage::Done(header.clone()));
    assert_eq!(creation.order_id, order_id);
    (header, rows, answer)
}

#[test]
fn creation_begins_before_the_authorizer() {
    let form = NewOrder { note: Some("n".to_string()), items: vec![flow_item("A", 2, 500)] };
    let creation = OrderCreation::begin(form);
    assert_eq!(creation.stage, Stage::Authorizing(AuthState::AwaitingCredential));
    assert_eq!(creation.note, Some("n".to_string()));
    assert_eq!(creation.items, vec![flow_item("A", 2, 500)]);
}

#[test]
fn creation_draws_a_fresh_order_id_each_time() {
    let first = OrderCreation::begin(NewOrder { note: None, items: Vec::new() });
    let second = OrderCreation::begin(NewOrder { note: None, items: Vec::new() });
    assert_ne!(first.order_id, second.order_id);
    // a random UUID: version 4, RFC 4122 variant
    assert_eq!((first.order_id >> 76) & 0xf, 4);
    assert_eq!((first.order_id >> 62) & 0x3, 2);
}

#[test]
fn created_order_totals_1300_once_aggregated() {
    let form = NewOrder {
        note: Some("ring twice".to_string()),
        items: vec![flow_item("A", 2, 500), flow_item("B", 1, 300)],
    };
    let (header, rows, answer) = flow_create(form, 7);
    assert_eq!(answer, header);
    assert_eq!(header.note, Some("ring twice".to_string()));
    assert_eq!(rows.len(), 2);
    assert_eq!(rows[0].description, "A");
    assert_eq!((rows[0].qty, rows[0].price), (2, 500));
    assert_eq!(rows[1].description, "B");
    assert_eq!((rows[1].qty, rows[1].price), (1, 300));
    assert!(rows.iter().all(|row| row.order_id == header.order_id));
    assert_ne!(rows[0].item_id, rows[1].item_id);
    let joined: Vec<JoinRow> = rows.iter().map(|row| (header.clone(), row.clone())).collect();
    let details = aggregate_single(&joined).unwrap();
    assert_eq!(details.order_total, 1300);
    assert_eq!(details.order_id, header.order_id);
    assert_eq!(details.user_id, 7);
    let found = find_order_by_id(7, header.order_id, &joined).unwrap();
    assert_eq!(found.order_total, 1300);
    assert_eq!(find_order_by_id(8, header.order_id, &joined), Err(Failure::NotFound));
}

#[test]
fn creation_without_lines_succeeds_with_total_zero() {
    let form = NewOrder { note: None, items: Vec::new() };
    let (header, rows, answer) = flow_create(form, 7);
    assert_eq!(answer, header);
    assert_eq!(header.user_id, 7);
    assert_eq!(header.note, None);
    assert_eq!(rows, Vec::new());
    let joined: Vec<JoinRow> = rows.iter().map(|row| (header.clone(), row.clone())).collect();
    assert_eq!(checked_total(&joined), Some(0));
}

#[test]
fn creation_stamps_the_header_with_the_current_time() {
    let before = chrono::Utc::now().naive_utc();
    let (header, rows, _) =
        flow_create(NewOrder { note: None, items: vec![flow_item("A", 1, 1)] }, 7);
    let after = chrono::Utc::now().naive_utc();
    assert!(before <= header.created_at && header.created_at <= after);
    assert!(header.created_at <= rows[0].created_at && rows[0].created_at <= after);
}

#[test]
fn creation_writes_nothing_without_a_credential() {
    let creation = OrderCreation::begin(NewOrder { note: None, items: vec![flow_item("A", 1, 1)] });
    let (creation, action) = creation.step(Event::Auth(AuthEvent::Presented(Credential::Absent)));
    assert_eq!(action, Action::Failed(Failure::Unauthorized));
    assert_eq!(creation.stage, Stage::Failed(Failure::Unauthorized));
    let (creation, action) = creation.step(Event::HeaderStored);
    assert_eq!(action, Action::Failed(Failure::Unauthorized));
    assert_eq!(creation.stage, Stage::Failed(Failure::Unauthorized));
}

#[test]
fn creation_fails_with_the_failure_of_the_authorizer() {
    let begin = || OrderCreation::begin(NewOrder { note: None, items: Vec::new() });
    let (creation, _) = begin().step(flow_bearer());
    let (creation, action) = creation.step(Event::Auth(AuthEvent::Judged(Verdict::Rejected)));
    assert_eq!(action, Action::Failed(Failure::Unauthorized));
    assert_eq!(creation.stage, Stage::Failed(Failure::Unauthorized));

    let (creation, _) = begin().step(flow_bearer());
    let (creation, _) = creation.step(Event::Auth(AuthEvent::Judged(Verdict::Accepted(7))));
    let (creation, action) =
        creation.step(Event::Auth(AuthEvent::Resolved(Lookup::Rows(vec![flow_user(8)]))));
    assert_eq!(action, Action::Failed(Failure::NotFound));
    assert_eq!(creation.stage, Stage::Failed(Failure::NotFound));

    let (creation, _) = begin().step(flow_bearer());
    let (creation, _) = creation.step(Event::Auth(AuthEvent::Judged(Verdict::Accepted(7))));
    let (creation, action) = creation.step(Event::Auth(AuthEvent::Resolved(Lookup::Fault)));
    assert_eq!(action, Action::Failed(Failure::InternalError));
    assert_eq!(creation.stage, Stage::Failed(Failure::InternalError));
}

#[test]
fn creation_fails_when_the_header_cannot_be_written() {
    let creation = OrderCreation::begin(NewOrder { note: None, items: vec![flow_item("A", 1, 1)] });
    let (creation, _) = creation.step(flow_bearer());
    let (creation, _) = creation.step(Event::Auth(AuthEvent::Judged(Verdict::Accepted(7))));
    let (creation, _) =
        creation.step(Event::Auth(AuthEvent::Resolved(Lookup::Rows(vec![flow_user(7)]))));
    let (creation, action) = creation.step(Event::HeaderFailed);
    assert_eq!(action, Action::Failed(Failure::InternalError));
    assert_eq!(creation.stage, Stage::Failed(Failure::InternalError));
    let (_, action) = creation.step(Event::ItemsStored);
    assert_eq!(action, Action::Failed(Failure::InternalError));
}

#[test]
fn creation_fails_when_the_lines_cannot_be_written() {
    let creation = OrderCreation::begin(NewOrder { note: None, items: vec![flow_item("A", 1, 1)] });
    let (creation, _) = creation.step(flow_bearer());
    let (creation, _) = creation.step(Event::Auth(AuthEvent::Judged(Verdict::Accepted(7))));
    let (creation, _) =
        creation.step(Event::Auth(AuthEvent::Resolved(Lookup::Rows(vec![flow_user(7)]))));
    let (creation, _) = creation.step(Event::HeaderStored);
    let (creation, action) = creation.step(Event::ItemsFailed);
    assert_eq!(action, Action::Failed(Failure::InternalError));
    assert_eq!(creation.stage, Stage::Failed(Failure::InternalError));
}

#[test]
fn creation_fails_on_an_event_out_of_turn() {
    let creation = OrderCreation::begin(NewOrder { note: None, items: Vec::new() });
    let (creation, action) = creation.step(Event::ItemsStored);
    assert_eq!(action, Action::Failed(Failure::InternalError));
    assert_eq!(creation.stage, Stage::Failed(Failure::InternalError));

    let creation = OrderCreation::begin(NewOrder { note: None, items: Vec::new() });
    let (creation, _) = creation.step(flow_bearer());
    let (creation, _) = creation.step(Event::Auth(AuthEvent::Judged(Verdict::Accepted(7))));
    let (creation, _) =
        creation.step(Event::Auth(AuthEvent::Resolved(Lookup::Rows(vec![flow_user(7)]))));
    let (creation, action) = creation.step(Event::ItemsStored);
    assert_eq!(action, Action::Failed(Failure::InternalError));
    assert_eq!(creation.stage, Stage::Failed(Failure::InternalError));
}

#[test]
fn creation_that_is_done_repeats_its_answer() {
    let creation = OrderCreation::begin(NewOrder { note: None, items: Vec::new() });
    let (creation, _) = creation.step(flow_bearer());
    let (creation, _) = creation.step(Event::Auth(AuthEvent::Judged(Verdict::Accepted(7))));
    let (creation, _) =
        creation.step(Event::Auth(AuthEvent::Resolved(Lookup::Rows(vec![flow_user(7)]))));
    let (creation, _) = creation.step(Event::HeaderStored);
    let (creation, first) = creation.step(Event::ItemsStored);
    let (creation, second) = creation.step(Event::HeaderFailed);
    assert_eq!(first, second);
    assert!(matches!(creation.stage, Stage::Done(_)));
}

#[test]
fn creation_starts_under_the_given_identifier() {
    let form = NewOrder { note: Some("n".to_string()), items: vec![flow_item("A", 2, 500)] };
    let creation = OrderCreation::start(99, form);
    assert_eq!(
        creation,
        OrderCreation {
            order_id: 99,
            note: Some("n".to_string()),
            items: vec![flow_item("A", 2, 500)],
            stage: Stage::Authorizing(AuthState::AwaitingCredential),
        }
    );
    let (creation, _) = creation.step(flow_bearer());
    let (creation, _) = creation.step(Event::Auth(AuthEvent::Judged(Verdict::Accepted(7))));
    let (creation, action) =
        creation.step(Event::Auth(AuthEvent::Resolved(Lookup::Rows(vec![flow_user(7)]))));
    match action {
        Action::InsertHeader(order) => {
            assert_eq!((order.order_id, order.user_id), (99, 7));
            assert_eq!(order.note, Some("n".to_string()));
        }
        other => panic!("expected the header to be written, got {:?}", other),
    }
    let (_, action) = creation.step(Event::HeaderStored);
    match action {
        Action::InsertItems(rows) => {
            assert_eq!(rows.len(), 1);
            assert_eq!(rows[0].order_id, 99);
        }
        other => panic!("expected the lines to be written, got {:?}", other),
    }
}
