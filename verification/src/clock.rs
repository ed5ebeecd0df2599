//! The wall clock.

use vstd::prelude::*;

verus! {

/// Milliseconds since the Unix epoch, read from `chrono::Utc::now`.
/// Nothing is stated of the value: it is the time of the call.
#[verifier::external_body]
pub fn now_millis() -> (t: i64) {
    chrono::Utc::now().timestamp_millis()
}

/// The current UTC time as `chrono::Utc::now` displays it. Nothing is
/// stated of the text: it is the time of the call.
#[verifier::external_body]
pub fn utc_now_text() -> (t: String) {
    chrono::Utc::now().to_string()
}

/// The current UTC time as RFC 3339 text (`chrono::Utc::now` and
/// `to_rfc3339`). Nothing is stated of the text: it is the time of the
/// call.
#[verifier::external_body]
pub fn utc_now_rfc3339() -> (t: String) {
    chrono::Utc::now().to_rfc3339()
}

/// The current UTC time as `YYYY-MM-DD HH:MM:SS UTC` (`chrono::Utc::now`
/// formatted with `%Y-%m-%d %H:%M:%S UTC`). Nothing is stated of the
/// text: it is the time of the call.
#[verifier::external_body]
pub fn utc_now_stamp() -> (t: String) {
    chrono::Utc::now().format("%Y-%m-%d %H:%M:%S UTC").to_string()
}

} // verus!
