use vstd::prelude::*;

verus! {

/// Relies on `chrono::Utc::now` with `DateTime::timestamp`: the current time in seconds since
/// the Unix epoch. Nothing is promised of its value.
#[verifier::external_body]
pub(crate) fn unix_now() -> (r: i64) {
    chrono::Utc::now().timestamp()
}

} // verus!
