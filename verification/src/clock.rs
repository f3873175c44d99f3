//! The wall clock, read through a single trusted call.
//!
//! Nothing is promised of the raw reading — a wall clock can sit anywhere
//! and can jump backwards — so a clock set before the Unix epoch reads as 0
//! inside the trusted body itself, [`current_time`] clamps the far future to
//! the supported range, and every scheduling operation takes the resulting
//! timestamp as an explicit argument.

use crate::MAX_TIMESTAMP;
use vstd::prelude::*;

verus! {

/// Relies on std::time::SystemTime::now and SystemTime::duration_since: the
/// current wall-clock time as whole seconds since the Unix epoch.
/// `duration_since(UNIX_EPOCH)` returns its error exactly when the clock is
/// set before the epoch; that reading comes out as 0. The value depends on
/// the machine's clock, so nothing more is promised of it.
#[verifier::external_body]
fn now_unix_seconds() -> u64 {
    match std::time::SystemTime::now().duration_since(std::time::UNIX_EPOCH) {
        Ok(since_epoch) => since_epoch.as_secs(),
        Err(_) => 0,
    }
}

/// The current wall-clock time, clamped to `0 ..= MAX_TIMESTAMP` so that it
/// can be fed to every scheduling operation.
pub fn current_time() -> (t: i64)
    ensures
        0 <= t <= MAX_TIMESTAMP,
{
    let raw = now_unix_seconds();
    if raw > MAX_TIMESTAMP as u64 {
        MAX_TIMESTAMP
    } else {
        raw as i64
    }
}

} // verus!
