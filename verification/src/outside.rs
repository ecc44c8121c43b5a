//! What the service takes from other crates: identifiers from `uuid`, the
//! clock from `chrono`, and the text of a request header from `actix_web`.
//! Nothing here is proved; each contract says what is taken on trust.

use vstd::prelude::*;

verus! {

/// `chrono::NaiveDateTime`, a date and time without a zone. The service
/// stores such values and hands them on; it never looks inside one.
#[verifier::external_type_specification]
#[verifier::external_body]
pub struct ExNaiveDateTime(chrono::NaiveDateTime);

/// `actix_web::http::HeaderValue`, the bytes of one request header.
#[verifier::external_type_specification]
#[verifier::external_body]
pub struct ExHeaderValue(actix_web::http::HeaderValue);

/// Draws a random identifier with `uuid::Uuid::new_v4` and hands it out as
/// the 128-bit number that `Uuid::as_u128` gives. Nothing is claimed of the
/// number: it is random.
#[verifier::external_body]
pub(crate) fn fresh_id() -> (id: u128) {
    uuid::Uuid::new_v4().as_u128()
}

/// Reads the clock with `chrono::Utc::now` and drops the zone with
/// `naive_utc`. Nothing is claimed of the moment that comes back.
#[verifier::external_body]
pub(crate) fn now() -> (moment: chrono::NaiveDateTime) {
    chrono::Utc::now().naive_utc()
}

/// Reads the clock with `chrono::Utc::now` and gives the nanoseconds since
/// the start of 1970 that `timestamp_nanos_opt` counts, or `None` where that
/// count does not fit in 64 bits. Nothing is claimed of the count.
#[verifier::external_body]
pub(crate) fn unix_nanos() -> (nanos: Option<i64>) {
    chrono::Utc::now().timestamp_nanos_opt()
}

/// The bytes that a header value holds, in order.
pub uninterp spec fn header_bytes(header: actix_web::http::HeaderValue) -> Seq<u8>;

/// Whether a byte is a visible ASCII character, a space or a tab.
pub open spec fn visible_ascii(byte: u8) -> bool {
    32 <= byte < 127 || byte == 9
}

/// The text that bytes of ASCII spell: each byte is one character.
pub open spec fn ascii_text(bytes: Seq<u8>) -> Seq<char> {
    bytes.map_values(|byte: u8| byte as char)
}

/// Whether every one of the bytes is visible ASCII.
pub open spec fn all_visible(bytes: Seq<u8>) -> bool {
    forall|i: int| 0 <= i < bytes.len() ==> visible_ascii(#[trigger] bytes[i])
}

/// Asks `HeaderValue::to_str` for the header as text. That call scans the
/// header's bytes and refuses the header, here with `None`, where a byte is
/// neither a tab nor in the range from 32 to 126; otherwise it gives the
/// bytes themselves as a string.
#[verifier::external_body]
pub(crate) fn header_text(header: &actix_web::http::HeaderValue) -> (text: Option<String>)
    ensures
        text is Some <==> all_visible(header_bytes(*header)),
        text matches Some(s) ==> s@ == ascii_text(header_bytes(*header)),
{
    match header.to_str() {
        Ok(s) => Some(s.to_owned()),
        Err(_) => None,
    }
}

} // verus!
