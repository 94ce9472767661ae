//! The one clock read the driver makes: a reading's capture timestamp.

use vstd::prelude::*;

verus! {

/// Relies on std's `SystemTime::now`, chrono's `From<SystemTime>` conversion
/// to a UTC instant (which represents a clock before the Unix epoch as a
/// negative timestamp rather than failing), and `DateTime::timestamp_millis`
/// (that instant as non-leap milliseconds since the Unix epoch). The result
/// depends on when the call happens, so nothing is promised about it.
#[verifier::external_body]
pub(crate) fn utc_now_millis() -> i64 {
    chrono::DateTime::<chrono::Utc>::from(std::time::SystemTime::now()).timestamp_millis()
}

} // verus!
