//! The wall clock, read through the `chrono` crate.

use vstd::prelude::*;

verus! {

/// Relies on chrono's `Utc::now` and `DateTime::timestamp_millis`: the
/// current moment as milliseconds since the Unix epoch. Nothing is
/// promised of the value; time is not a function of the program's state.
#[verifier::external_body]
pub(crate) fn now_millis() -> i64 {
    chrono::Utc::now().timestamp_millis()
}

} // verus!
