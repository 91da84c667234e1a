//! The one place the library reads the wall clock.

use vstd::prelude::*;

verus! {

/// Relies on `chrono::Utc::now` and `chrono::DateTime::timestamp`: the
/// current wall clock as whole seconds of Unix time. `Utc::now` refuses (by
/// panicking) a system clock set before the Unix epoch, so a returned value
/// is never negative; beyond that, nothing is promised of a clock reading.
#[verifier::external_body]
pub fn now_unix_seconds() -> (r: i64)
    ensures
        0 <= r,
{
    chrono::Utc::now().timestamp()
}

} // verus!
