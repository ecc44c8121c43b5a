use actix_web::http::HeaderValue;
use chrono::NaiveDate;
use order_service::auth::{
    auth_step, authenticate_request, authorize, credential_of, read_credential, AuthAction,
    AuthEvent, AuthState, Credential, Lookup, Verdict,
};
use order_service::failure::Failure;
use order_service::model::User;

fn auth_user(user_id: u128) -> User {
    User {
        user_id,
        first_name: "Ann".to_string(),
        last_name: "Doe".to_string(),
        email: "ann@example.com".to_string(),
        password: "secret".to_string(),
        created_at: NaiveDate::from_ymd_opt(2020, 1, 1).unwrap().and_hms_opt(0, 0, 0).unwrap(),
    }
}

fn auth_bearer() -> Credential {
    Credential::Bearer("header.payload.signature".to_string())
}

#[test]
fn read_credential_without_a_header_is_absent() {
    assert_eq!(read_credential(None), Credential::Absent);
}

#[test]
fn read_credential_gives_the_text_of_the_header() {
    let header = HeaderValue::from_static("header.payload.signature");
    assert_eq!(read_credential(Some(header)), auth_bearer());
    let empty = HeaderValue::from_static("");
    assert_eq!(read_credential(Some(empty)), Credential::Bearer(String::new()));
}

#[test]
fn read_credential_refuses_bytes_outside_visible_ascii() {
    let header = HeaderValue::from_bytes(&[b'a', 0xfa, b'b']).unwrap();
    assert_eq!(read_credential(Some(header)), Credential::Unreadable);
}

#[test]
fn credential_of_wraps_the_text() {
    assert_eq!(credential_of(Some("abc".to_string())), Credential::Bearer("abc".to_string()));
    assert_eq!(credential_of(None), Credential::Unreadable);
}

#[test]
fn authorize_without_a_credential_is_unauthorized() {
    let lookup = Lookup::Rows(vec![auth_user(7)]);
    assert_eq!(
        authorize(Credential::Absent, Verdict::Accepted(7), lookup),
        Err(Failure::Unauthorized)
    );
}

#[test]
fn authorize_with_an_unreadable_credential_is_unauthorized() {
    let lookup = Lookup::Rows(vec![auth_user(7)]);
    assert_eq!(
        authorize(Credential::Unreadable, Verdict::Accepted(7), lookup),
        Err(Failure::Unauthorized)
    );
}

#[test]
fn authorize_with_a_rejected_token_is_unauthorized() {
    let lookup = Lookup::Rows(vec![auth_user(7)]);
    assert_eq!(authorize(auth_bearer(), Verdict::Rejected, lookup), Err(Failure::Unauthorized));
}

#[test]
fn authorize_for_a_user_that_does_not_exist_is_not_found() {
    assert_eq!(
        authorize(auth_bearer(), Verdict::Accepted(7), Lookup::Rows(Vec::new())),
        Err(Failure::NotFound)
    );
    assert_eq!(
        authorize(auth_bearer(), Verdict::Accepted(7), Lookup::Rows(vec![auth_user(8)])),
        Err(Failure::NotFound)
    );
}

#[test]
fn authorize_on_a_fault_of_the_store_is_an_internal_error() {
    assert_eq!(
        authorize(auth_bearer(), Verdict::Accepted(7), Lookup::Fault),
        Err(Failure::InternalError)
    );
}

#[test]
fn authorize_grants_exactly_the_user_of_the_token() {
    let lookup = Lookup::Rows(vec![auth_user(3), auth_user(7)]);
    assert_eq!(authorize(auth_bearer(), Verdict::Accepted(7), lookup), Ok(7));
}

#[test]
fn authenticate_request_reads_the_header_first() {
    let lookup = Lookup::Rows(vec![auth_user(7)]);
    assert_eq!(
        authenticate_request(None, Verdict::Accepted(7), lookup),
        Err(Failure::Unauthorized)
    );
    let lookup = Lookup::Rows(vec![auth_user(7)]);
    let header = HeaderValue::from_static("header.payload.signature");
    assert_eq!(authenticate_request(Some(header), Verdict::Accepted(7), lookup), Ok(7));
    let lookup = Lookup::Rows(vec![auth_user(7)]);
    let unreadable = HeaderValue::from_bytes(&[0x80]).unwrap();
    assert_eq!(
        authenticate_request(Some(unreadable), Verdict::Accepted(7), lookup),
        Err(Failure::Unauthorized)
    );
}

#[test]
fn auth_step_asks_for_the_token_then_for_the_user() {
    let (state, action) =
        auth_step(AuthState::AwaitingCredential, AuthEvent::Presented(auth_bearer()));
    assert_eq!(state, AuthState::AwaitingVerdict);
    assert_eq!(action, AuthAction::VerifyToken("header.payload.signature".to_string()));
    let (state, action) = auth_step(state, AuthEvent::Judged(Verdict::Accepted(7)));
    assert_eq!(state, AuthState::AwaitingUser(7));
    assert_eq!(action, AuthAction::FindUser(7));
    let (state, action) = auth_step(state, AuthEvent::Resolved(Lookup::Rows(vec![auth_user(7)])));
    assert_eq!(state, AuthState::Granted(7));
    assert_eq!(action, AuthAction::Grant(7));
}

#[test]
fn auth_step_denies_at_each_stage() {
    let (state, action) =
        auth_step(AuthState::AwaitingCredential, AuthEvent::Presented(Credential::Absent));
    assert_eq!(state, AuthState::Denied(Failure::Unauthorized));
    assert_eq!(action, AuthAction::Deny(Failure::Unauthorized));
    let (state, action) =
        auth_step(AuthState::AwaitingVerdict, AuthEvent::Judged(Verdict::Rejected));
    assert_eq!(state, AuthState::Denied(Failure::Unauthorized));
    assert_eq!(action, AuthAction::Deny(Failure::Unauthorized));
    let (state, action) = auth_step(AuthState::AwaitingUser(7), AuthEvent::Resolved(Lookup::Fault));
    assert_eq!(state, AuthState::Denied(Failure::InternalError));
    assert_eq!(action, AuthAction::Deny(Failure::InternalError));
    let (state, action) =
        auth_step(AuthState::AwaitingUser(7), AuthEvent::Resolved(Lookup::Rows(Vec::new())));
    assert_eq!(state, AuthState::Denied(Failure::NotFound));
    assert_eq!(action, AuthAction::Deny(Failure::NotFound));
}

#[test]
fn auth_step_fails_closed_on_an_answer_out_of_turn() {
    let (state, action) =
        auth_step(AuthState::AwaitingCredential, AuthEvent::Judged(Verdict::Accepted(7)));
    assert_eq!(state, AuthState::Denied(Failure::InternalError));
    assert_eq!(action, AuthAction::Deny(Failure::InternalError));
    let (state, _) = auth_step(
        AuthState::AwaitingCredential,
        AuthEvent::Resolved(Lookup::Rows(vec![auth_user(7)])),
    );
    assert_eq!(state, AuthState::Denied(Failure::InternalError));
    let (state, _) = auth_step(AuthState::AwaitingVerdict, AuthEvent::Presented(auth_bearer()));
    assert_eq!(state, AuthState::Denied(Failure::InternalError));
    let (state, _) = auth_step(AuthState::AwaitingUser(7), AuthEvent::Judged(Verdict::Accepted(7)));
    assert_eq!(state, AuthState::Denied(Failure::InternalError));
}

#[test]
fn auth_step_stays_where_it_ended() {
    let (state, action) =
        auth_step(AuthState::Denied(Failure::NotFound), AuthEvent::Judged(Verdict::Accepted(7)));
    assert_eq!(state, AuthState::Denied(Failure::NotFound));
    assert_eq!(action, AuthAction::Deny(Failure::NotFound));
    let (state, action) = auth_step(AuthState::Granted(7), AuthEvent::Judged(Verdict::Rejected));
    assert_eq!(state, AuthState::Granted(7));
    assert_eq!(action, AuthAction::Grant(7));
}
