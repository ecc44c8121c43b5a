//! The claims that an identity token carries. Signing a token and checking
//! a signature are left to the caller.

use vstd::prelude::*;
use crate::outside::unix_nanos;

verus! {

/// How long a token stays valid, in seconds.
pub const ONE_WEEK: i64 = 60 * 60 * 24 * 7;

/// The claims of an identity token.
#[derive(Clone, Copy, Debug, PartialEq, Eq, Structural)]
pub struct UserToken {
    /// When the token was issued, in seconds since the start of 1970.
    pub iat: i64,
    /// When the token expires, in seconds since the start of 1970.
    pub exp: i64,
    /// Whom the token identifies.
    pub user_id: u128,
}

/// The claims of a token issued to `uid` at the second `now`: valid from
/// then on for one week.
pub open spec fn claims_issued_at(now: i64, uid: u128) -> UserToken {
    UserToken { iat: now, exp: (now + ONE_WEEK) as i64, user_id: uid }
}

/// Builds the claims of a token issued to `uid` at the second `now`.
pub fn claims_at(now: i64, uid: u128) -> (claims: UserToken)
    requires
        now + ONE_WEEK <= i64::MAX,
    ensures
        claims == claims_issued_at(now, uid),
        claims.exp - claims.iat == ONE_WEEK,
{
    UserToken { iat: now, exp: now + ONE_WEEK, user_id: uid }
}

/// The whole seconds in a count of nanoseconds, rounded towards zero.
pub open spec fn whole_seconds(nanos: i64) -> int {
    if nanos >= 0 {
        nanos / 1_000_000_000
    } else {
        -((-nanos) / 1_000_000_000)
    }
}

/// Builds the claims of a token issued to `uid` at the moment that lies
/// `nanos` nanoseconds after the start of 1970: the claims of the second
/// that the moment falls in.
pub fn claims_from_nanos(nanos: i64, uid: u128) -> (claims: UserToken)
    ensures
        claims.iat == whole_seconds(nanos),
        claims == claims_issued_at(claims.iat, uid),
        claims.exp - claims.iat == ONE_WEEK,
{
    let now = nanos / 1_000_000_000;  // nanosecond -> second
    claims_at(now, uid)
}

/// Builds the claims of a token issued to `uid` now. The result is `None`
/// where the clock stands outside the years that a count of nanoseconds in
/// 64 bits can reach.
pub fn new_claims(uid: u128) -> (claims: Option<UserToken>)
    ensures
        claims matches Some(token) ==> token == claims_issued_at(token.iat, uid) && token.exp
            - token.iat == ONE_WEEK,
{
    claims_from_reading(unix_nanos(), uid)
}

/// The claims that a reading of the clock gives for `uid`: those of the
/// second that the reading falls in, and none where the clock gave no count
/// of nanoseconds.
pub open spec fn claims_of_reading(reading: Option<i64>, uid: u128) -> Option<UserToken> {
    match reading {
        Some(nanos) => Some(claims_issued_at(whole_seconds(nanos) as i64, uid)),
        None => None,
    }
}

/// Builds the claims of a token issued to `uid` at the moment that the clock
/// was read, given what the reading gave: a count of nanoseconds since the
/// start of 1970, or nothing where that count does not fit in 64 bits.
pub fn claims_from_reading(reading: Option<i64>, uid: u128) -> (claims: Option<UserToken>)
    ensures
        claims == claims_of_reading(reading, uid),
        claims is Some <==> reading is Some,
        claims matches Some(token) ==> token == claims_issued_at(token.iat, uid) && token.exp
            - token.iat == ONE_WEEK,
{
    match reading {
        Some(nanos) => Some(claims_from_nanos(nanos, uid)),
        None => None,
    }
}

} // verus!
