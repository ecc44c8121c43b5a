//! The authorizer: from the credential of a request to the id of a
//! living user, or to the reason why the request is turned down.
//!
//! The authorizer verifies nothing by itself that needs a key or a store. It says
//! what is to be asked next, takes the answer as an event, and fails closed:
//! an answer that it did not ask for ends in a denial.

use vstd::prelude::*;
use actix_web::http::HeaderValue;
use crate::failure::Failure;
use crate::model::{user_models, User, UserModel};
use crate::outside::{all_visible, ascii_text, header_bytes, header_text};
use crate::store::{find_user_by_uid, lemma_filter_none, user_by_uid, with_uid};

verus! {

/// What the request carried as its credential.
#[derive(Debug, PartialEq, Eq)]
pub enum Credential {
    /// The request has no credential.
    Absent,
    /// The credential cannot be read as text.
    Unreadable,
    /// The text of a bearer token.
    Bearer(String),
}

/// The model of a [`Credential`].
pub enum CredentialModel {
    Absent,
    Unreadable,
    Bearer(Seq<char>),
}

impl View for Credential {
    type V = CredentialModel;

    open spec fn view(&self) -> CredentialModel {
        match self {
            Credential::Absent => CredentialModel::Absent,
            Credential::Unreadable => CredentialModel::Unreadable,
            Credential::Bearer(text) => CredentialModel::Bearer(text@),
        }
    }
}

/// What the token service made of a token.
#[derive(Clone, Copy, Debug, PartialEq, Eq, Structural)]
pub enum Verdict {
    /// The token is malformed, forged or expired.
    Rejected,
    /// The token is genuine and names this user.
    Accepted(u128),
}

/// What the user store answered when asked for the users with one id.
#[derive(Debug, PartialEq, Eq)]
pub enum Lookup {
    /// The store failed.
    Fault,
    /// The users that the store returned.
    Rows(Vec<User>),
}

/// The model of a [`Lookup`].
pub enum LookupModel {
    Fault,
    Rows(Seq<UserModel>),
}

impl View for Lookup {
    type V = LookupModel;

    open spec fn view(&self) -> LookupModel {
        match self {
            Lookup::Fault => LookupModel::Fault,
            Lookup::Rows(users) => LookupModel::Rows(user_models(users@)),
        }
    }
}

/// Where the authorizer stands.
#[derive(Clone, Copy, Debug, PartialEq, Eq, Structural)]
pub enum AuthState {
    /// Nothing has been seen yet: the authorizer waits for the credential.
    AwaitingCredential,
    /// The token is with the token service.
    AwaitingVerdict,
    /// The token named this user, and the user store is being asked.
    AwaitingUser(u128),
    /// The request was made by this user.
    Granted(u128),
    /// The request is turned down.
    Denied(Failure),
}

/// What happened outside the authorizer.
#[derive(Debug, PartialEq, Eq)]
pub enum AuthEvent {
    /// The credential of the request was read.
    Presented(Credential),
    /// The token service answered.
    Judged(Verdict),
    /// The user store answered.
    Resolved(Lookup),
}

/// The model of a [`AuthEvent`].
pub enum AuthEventModel {
    Presented(CredentialModel),
    Judged(Verdict),
    Resolved(LookupModel),
}

impl View for AuthEvent {
    type V = AuthEventModel;

    open spec fn view(&self) -> AuthEventModel {
        match self {
            AuthEvent::Presented(credential) => AuthEventModel::Presented(credential@),
            AuthEvent::Judged(verdict) => AuthEventModel::Judged(*verdict),
            AuthEvent::Resolved(lookup) => AuthEventModel::Resolved(lookup@),
        }
    }
}

/// What the authorizer asks for, or how it ends.
#[derive(Debug, PartialEq, Eq)]
pub enum AuthAction {
    /// Have the token service verify this token.
    VerifyToken(String),
    /// Ask the user store for the users with this id.
    FindUser(u128),
    /// Let the request through as this user.
    Grant(u128),
    /// Turn the request down.
    Deny(Failure),
}

/// The model of a [`AuthAction`].
pub enum AuthActionModel {
    VerifyToken(Seq<char>),
    FindUser(u128),
    Grant(u128),
    Deny(Failure),
}

impl View for AuthAction {
    type V = AuthActionModel;

    open spec fn view(&self) -> AuthActionModel {
        match self {
            AuthAction::VerifyToken(token) => AuthActionModel::VerifyToken(token@),
            AuthAction::FindUser(user_id) => AuthActionModel::FindUser(*user_id),
            AuthAction::Grant(user_id) => AuthActionModel::Grant(*user_id),
            AuthAction::Deny(failure) => AuthActionModel::Deny(*failure),
        }
    }
}

/// The authorizer ended with a denial.
pub open spec fn denied(failure: Failure) -> (AuthState, AuthActionModel) {
    (AuthState::Denied(failure), AuthActionModel::Deny(failure))
}

/// The authorizer's rule: where it goes from a state on an event, and what
/// it asks for or answers.
///
/// - A missing or unreadable credential is `Unauthorized`; a bearer token
///   goes to the token service.
/// - A rejected token is `Unauthorized`; for an accepted one the user store
///   is asked for the user that the token names.
/// - A fault of the store is `InternalError`; no user with that id is
///   `NotFound`; otherwise the request is granted to the id that the token
///   named.
/// - An authorizer that has granted or denied stays as it is and repeats its
///   answer.
/// - An event that the authorizer did not wait for is `InternalError`.
pub open spec fn auth_next(state: AuthState, event: AuthEventModel) -> (
    AuthState,
    AuthActionModel,
) {
    match (state, event) {
        (AuthState::Granted(user_id), _) => (state, AuthActionModel::Grant(user_id)),
        (AuthState::Denied(failure), _) => (state, AuthActionModel::Deny(failure)),
        (AuthState::AwaitingCredential, AuthEventModel::Presented(credential)) => match credential {
            CredentialModel::Bearer(token) => (
                AuthState::AwaitingVerdict,
                AuthActionModel::VerifyToken(token),
            ),
            _ => denied(Failure::Unauthorized),
        },
        (AuthState::AwaitingVerdict, AuthEventModel::Judged(verdict)) => match verdict {
            Verdict::Accepted(user_id) => (
                AuthState::AwaitingUser(user_id),
                AuthActionModel::FindUser(user_id),
            ),
            Verdict::Rejected => denied(Failure::Unauthorized),
        },
        (AuthState::AwaitingUser(claimed), AuthEventModel::Resolved(lookup)) => match lookup {
            LookupModel::Rows(users) => match user_by_uid(users, claimed) {
                Some(_) => (AuthState::Granted(claimed), AuthActionModel::Grant(claimed)),
                None => denied(Failure::NotFound),
            },
            LookupModel::Fault => denied(Failure::InternalError),
        },
        _ => denied(Failure::InternalError),
    }
}

/// The credential that a request carries in the given header: none without
/// a header, the header's text where all of its bytes are visible ASCII, and
/// an unreadable one otherwise.
pub open spec fn credential_in(header: Option<HeaderValue>) -> CredentialModel {
    match header {
        None => CredentialModel::Absent,
        Some(value) => if all_visible(header_bytes(value)) {
            CredentialModel::Bearer(ascii_text(header_bytes(value)))
        } else {
            CredentialModel::Unreadable
        },
    }
}

/// Reads the credential of a request from its header, if it has one.
pub fn read_credential(header: Option<HeaderValue>) -> (credential: Credential)
    ensures
        credential@ == credential_in(header),
        header is None <==> credential is Absent,
{
    match header {
        None => Credential::Absent,
        Some(value) => credential_of(header_text(&value)),
    }
}

/// The credential that a header makes, given what the header is as text.
pub fn credential_of(text: Option<String>) -> (credential: Credential)
    ensures
        credential@ == match text {
            Some(token) => CredentialModel::Bearer(token@),
            None => CredentialModel::Unreadable,
        },
{
    match text {
        Some(token) => Credential::Bearer(token),
        None => Credential::Unreadable,
    }
}

/// Moves the authorizer by one event, as [`auth_next`] rules.
pub fn auth_step(state: AuthState, event: AuthEvent) -> (next: (AuthState, AuthAction))
    ensures
        (next.0, next.1@) == auth_next(state, event@),
{
    match state {
        AuthState::Granted(user_id) => (state, AuthAction::Grant(user_id)),
        AuthState::Denied(failure) => (state, AuthAction::Deny(failure)),
        AuthState::AwaitingCredential => match event {
            AuthEvent::Presented(Credential::Bearer(token)) => (
                AuthState::AwaitingVerdict,
                AuthAction::VerifyToken(token),
            ),
            AuthEvent::Presented(_) => deny(Failure::Unauthorized),
            _ => deny(Failure::InternalError),
        },
        AuthState::AwaitingVerdict => match event {
            AuthEvent::Judged(Verdict::Accepted(user_id)) => (
                AuthState::AwaitingUser(user_id),
                AuthAction::FindUser(user_id),
            ),
            AuthEvent::Judged(Verdict::Rejected) => deny(Failure::Unauthorized),
            _ => deny(Failure::InternalError),
        },
        AuthState::AwaitingUser(claimed) => match event {
            AuthEvent::Resolved(Lookup::Rows(users)) => match find_user_by_uid(claimed, &users) {
                Some(_) => (AuthState::Granted(claimed), AuthAction::Grant(claimed)),
                None => deny(Failure::NotFound),
            },
            AuthEvent::Resolved(Lookup::Fault) => deny(Failure::InternalError),
            _ => deny(Failure::InternalError),
        },
    }
}

/// Ends the authorizer with a denial.
fn deny(failure: Failure) -> (next: (AuthState, AuthAction))
    ensures
        (next.0, next.1@) == denied(failure),
{
    (AuthState::Denied(failure), AuthAction::Deny(failure))
}

/// How a request fares with the authorizer, given what it carried, what the
/// token service says of its token and what the user store returns for the
/// user that the token names.
pub open spec fn auth_outcome(
    credential: CredentialModel,
    verdict: Verdict,
    lookup: LookupModel,
) -> Result<u128, Failure> {
    match (credential, verdict, lookup) {
        (CredentialModel::Bearer(_), Verdict::Accepted(user_id), LookupModel::Rows(users)) => {
            if user_by_uid(users, user_id) is Some {
                Ok(user_id)
            } else {
                Err(Failure::NotFound)
            }
        },
        (CredentialModel::Bearer(_), Verdict::Accepted(_), LookupModel::Fault) => Err(
            Failure::InternalError,
        ),
        _ => Err(Failure::Unauthorized),
    }
}

/// Where the authorizer ends when it is given, one after the other, the
/// credential, the token service's verdict and the user store's answer.
pub open spec fn auth_run(
    credential: CredentialModel,
    verdict: Verdict,
    lookup: LookupModel,
) -> AuthState {
    let presented = auth_next(AuthState::AwaitingCredential, AuthEventModel::Presented(credential));
    let judged = auth_next(presented.0, AuthEventModel::Judged(verdict));
    auth_next(judged.0, AuthEventModel::Resolved(lookup)).0
}

/// Authorizes a request with the answers at hand.
///
/// The request is granted, to exactly the user that its token names, where
/// it carries a bearer token, the token service accepts the token and the
/// user store returns that user. It fails with `Unauthorized` without a
/// readable credential or with a rejected token, with `InternalError` on a
/// fault of the store, with `NotFound` where the store returns no such
/// user.
pub fn authorize(credential: Credential, verdict: Verdict, lookup: Lookup) -> (outcome: Result<
    u128,
    Failure,
>)
    ensures
        outcome == auth_outcome(credential@, verdict, lookup@),
        credential is Absent ==> outcome == Err::<u128, Failure>(Failure::Unauthorized),
        outcome matches Ok(user_id) ==> verdict == Verdict::Accepted(user_id),
{
    let (presented, _) = auth_step(AuthState::AwaitingCredential, AuthEvent::Presented(credential));
    let (judged, _) = auth_step(presented, AuthEvent::Judged(verdict));
    let (resolved, _) = auth_step(judged, AuthEvent::Resolved(lookup));
    match resolved {
        AuthState::Granted(user_id) => Ok(user_id),
        AuthState::Denied(failure) => Err(failure),
        _ => Err(Failure::InternalError),
    }
}

/// Authorizes a request from the header that carries its credential, with
/// the answers at hand.
///
/// Without a header, or with one that cannot be read as text, the request
/// is `Unauthorized`; otherwise it fares as [`auth_outcome`] says of a
/// bearer token.
pub fn authenticate_request(
    header: Option<HeaderValue>,
    verdict: Verdict,
    lookup: Lookup,
) -> (outcome: Result<u128, Failure>)
    ensures
        outcome == auth_outcome(credential_in(header), verdict, lookup@),
        header is None ==> outcome == Err::<u128, Failure>(Failure::Unauthorized),
        outcome matches Ok(user_id) ==> verdict == Verdict::Accepted(user_id),
{
    authorize(read_credential(header), verdict, lookup)
}

/// The authorizer, run to its end, stands where [`auth_outcome`] says: granted to
/// the user of a good outcome, denied with the failure of a bad one.
pub proof fn lemma_auth_run(credential: CredentialModel, verdict: Verdict, lookup: LookupModel)
    ensures
        auth_run(credential, verdict, lookup) == match auth_outcome(credential, verdict, lookup) {
            Ok(user_id) => AuthState::Granted(user_id),
            Err(failure) => AuthState::Denied(failure),
        },
{
}

/// A request without a credential is `Unauthorized`, whatever the token
/// service and the user store would say.
pub proof fn lemma_no_credential(verdict: Verdict, lookup: LookupModel)
    ensures
        auth_outcome(CredentialModel::Absent, verdict, lookup) == Err::<u128, Failure>(
            Failure::Unauthorized,
        ),
        auth_outcome(CredentialModel::Unreadable, verdict, lookup) == Err::<u128, Failure>(
            Failure::Unauthorized,
        ),
{
}

/// A request whose token names a user that the store does not return is
/// `NotFound`.
pub proof fn lemma_unknown_user(token: Seq<char>, user_id: u128, users: Seq<UserModel>)
    requires
        forall|i: int| 0 <= i < users.len() ==> (#[trigger] users[i]).user_id != user_id,
    ensures
        auth_outcome(
            CredentialModel::Bearer(token),
            Verdict::Accepted(user_id),
            LookupModel::Rows(users),
        ) == Err::<u128, Failure>(Failure::NotFound),
{
    lemma_filter_none(users, with_uid(user_id));
}

/// A request with an accepted token is granted to exactly the user that the
/// token names, where the store returns a user with that id.
pub proof fn lemma_known_user(token: Seq<char>, user_id: u128, users: Seq<UserModel>, at: int)
    requires
        0 <= at < users.len(),
        users[at].user_id == user_id,
    ensures
        auth_outcome(
            CredentialModel::Bearer(token),
            Verdict::Accepted(user_id),
            LookupModel::Rows(users),
        ) == Ok::<u128, Failure>(user_id),
{
    assert(with_uid(user_id)(users[at]));
    users.lemma_filter_contains(with_uid(user_id), at);
}

/// The authorizer fails closed: a request is granted only where it carried a
/// bearer token, the token service accepted the token for the very user
/// that is granted, and the store returned a user with that id.
pub proof fn lemma_auth_fails_closed(
    credential: CredentialModel,
    verdict: Verdict,
    lookup: LookupModel,
)
    ensures
        auth_outcome(credential, verdict, lookup) matches Ok(user_id) ==> {
            &&& credential is Bearer
            &&& verdict == Verdict::Accepted(user_id)
            &&& lookup matches LookupModel::Rows(users)
            &&& exists|i: int| 0 <= i < users.len() && (#[trigger] users[i]).user_id == user_id
        },
{
    if auth_outcome(credential, verdict, lookup) is Ok {
        let users = lookup->Rows_0;
        let user_id = verdict->0;
        let kept = users.filter(with_uid(user_id));
        users.lemma_filter_pred(with_uid(user_id), 0);
        assert(kept.contains(kept[0]));
        users.lemma_filter_contains_rev(with_uid(user_id), kept[0]);
        let i = choose|i: int| 0 <= i < users.len() && users[i] == kept[0];
        assert(users[i].user_id == user_id);
    }
}

} // verus!
