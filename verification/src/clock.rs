//! The wall clock, read through an outside crate.

use vstd::prelude::*;

verus! {

/// Relies on chrono::Utc::now (converted with timestamp_millis): the current
/// wall-clock time as milliseconds since the Unix epoch. Nothing is promised
/// of the value; callers must hold for every reading. The underlying call
/// panics on a system clock set before the Unix epoch.
#[verifier::external_body]
pub fn now_unix_millis() -> i64 {
    chrono::Utc::now().timestamp_millis()
}

} // verus!
