//! The process's one impure input: the current wall-clock time.
//!
//! Every other operation in this crate is a pure function of its arguments.
//! Callers that need "now" read it here once and hand the timestamp to the
//! timestamp-explicit functions, whose contracts then pin the result.

use vstd::prelude::*;

verus! {

/// Relies on `std::time::SystemTime::now`: returns the current Unix
/// timestamp in seconds. The value depends on the wall clock, so nothing is
/// promised of it. The body cannot panic: a system clock set before the
/// Unix epoch makes `duration_since` return its error, which is reported
/// as 0.
#[verifier::external_body]
pub fn unix_now() -> u64 {
    match std::time::SystemTime::now().duration_since(std::time::UNIX_EPOCH) {
        Ok(elapsed) => elapsed.as_secs(),
        Err(_) => 0,
    }
}

} // verus!
