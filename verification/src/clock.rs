//! The wall clock, read through an outside crate.
//!
//! Directory entries carry the time of their last change as milliseconds
//! since the Unix epoch. Only the hub's command handlers read the clock;
//! every contract that involves a timestamp is stated by a core function
//! that takes the already-read time as an argument, so nothing is assumed
//! of the clock's value.

use vstd::prelude::*;

verus! {

/// Relies on chrono::Utc::now and DateTime::timestamp_millis: the current
/// time in milliseconds since the Unix epoch. The value depends on the
/// moment of the call, so nothing is promised of it.
#[verifier::external_body]
pub(crate) fn now_millis() -> i64 {
    chrono::Utc::now().timestamp_millis()
}

} // verus!
