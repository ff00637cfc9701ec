//! The wall clock, read through chrono.
use vstd::prelude::*;

verus! {

/// Relies on `chrono::Utc::now` and `DateTime::timestamp`: the current Unix
/// time in whole seconds. Nothing is promised of the value.
#[verifier::external_body]
pub(crate) fn unix_timestamp() -> (r: i64) {
    chrono::Utc::now().timestamp()
}

} // verus!
