//! The wall clock, behind one trusted item: every record carries the poll
//! instant in milliseconds since the Unix epoch.

use vstd::prelude::*;

verus! {

/// Relies on `std::time::SystemTime::now` and `duration_since`: the wall
/// clock's milliseconds since the Unix epoch. The value depends on the
/// clock, so nothing is promised of it.
#[verifier::external_body]
pub fn now_milis() -> u128 {
    std::time::SystemTime::now()
        .duration_since(std::time::UNIX_EPOCH)
        .expect("get timestamp failed")
        .as_millis()
}

} // verus!
