//! The wall clock, read through chrono. Every decision function of the
//! library takes a time as a plain argument; these wrappers only supply it.

use vstd::prelude::*;

verus! {

/// Relies on `chrono::Utc::now` and `DateTime::timestamp_millis`: reads the
/// wall clock as milliseconds since the Unix epoch. Nothing is promised of
/// the value: callers hand it to decision functions that are verified for
/// every time.
#[verifier::external_body]
pub fn now_utc_ms() -> i64 {
    chrono::Utc::now().timestamp_millis()
}

} // verus!
