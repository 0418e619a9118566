//! What the service takes from the world around it: fresh identifiers and
//! the time of day.

use vstd::prelude::*;

verus! {

/// Calls `uuid::Uuid::new_v4` and writes the identifier out as text. The
/// identifier is drawn at random, so nothing is claimed of it.
#[verifier::external_body]
pub(crate) fn fresh_id() -> String {
    uuid::Uuid::new_v4().to_string()
}

/// Calls `chrono::Utc::now` and `DateTime::timestamp`: the seconds since
/// the Unix epoch on the system clock. `Utc::now` measures the time since
/// the epoch and does not return where the clock stands before it, so the
/// one thing claimed is that the reading is not negative.
#[verifier::external_body]
pub(crate) fn now_seconds() -> (now: i64)
    ensures
        0 <= now,
{
    chrono::Utc::now().timestamp()
}

/// Calls `chrono::Utc::now` and `DateTime::to_rfc3339`: the system time as
/// an RFC 3339 timestamp. Nothing is claimed of the text.
#[verifier::external_body]
pub(crate) fn now_rfc3339() -> String {
    chrono::Utc::now().to_rfc3339()
}

} // verus!
