use vstd::prelude::*;

verus! {

/// Calls `SystemTime::now`, chrono's conversion of a system time into a UTC date and
/// time, and `DateTime::timestamp`: the wall-clock time in whole seconds since the Unix
/// epoch, negative for a clock that stands before it. Nothing is promised of the value.
#[verifier::external_body]
pub(crate) fn current_timestamp() -> (now: i64) {
    chrono::DateTime::<chrono::Utc>::from(std::time::SystemTime::now()).timestamp()
}

} // verus!
