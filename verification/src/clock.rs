//! Access to the system clock. The discovery and health functions take the
//! current time as an argument; this is where callers obtain it.

use vstd::prelude::*;

verus! {

/// Relies on `std::time::SystemTime::now`: seconds between the Unix epoch
/// and the clock's reading, or 0 if the clock is set before the epoch. The
/// value depends on the wall clock, so nothing is promised of the result.
#[verifier::external_body]
fn epoch_seconds() -> u64 {
    std::time::SystemTime::now()
        .duration_since(std::time::UNIX_EPOCH)
        .unwrap_or_default()
        .as_secs()
}

/// Seconds since the Unix epoch, read from the system clock.
pub fn current_timestamp() -> u64 {
    epoch_seconds()
}

} // verus!
