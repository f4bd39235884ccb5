//! The wall clock.

use vstd::prelude::*;

verus! {

/// The time now, in milliseconds since the Unix epoch.
///
/// Calls chrono's `Utc::now` and `DateTime::timestamp_millis`. `Utc::now`
/// measures the system clock from the epoch and stops the program where the
/// clock stands before it, so a time that comes back is never negative; that
/// is all that is claimed of it.
#[verifier::external_body]
pub(crate) fn now_millis() -> (now: i64)
    ensures
        0 <= now,
{
    chrono::Utc::now().timestamp_millis()
}

} // verus!
