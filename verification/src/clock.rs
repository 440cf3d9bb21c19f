//! The monotonic clock of the executor.
use vstd::prelude::*;

verus! {

/// Reads `embassy_time::Instant::now()` and returns its ticks
/// (`Instant::as_ticks`): the ticks since the time driver started. Nothing is
/// promised of the value, which depends on when the call is made.
#[verifier::external_body]
pub(crate) fn now_ticks() -> (r: u64) {
    embassy_time::Instant::now().as_ticks()
}

/// `embassy_time::TICK_HZ`: the ticks per second of the time driver, a positive
/// constant that the driver's tick-rate feature fixes.
#[verifier::external_body]
pub(crate) fn tick_hz() -> (r: u64)
    ensures
        r > 0,
{
    embassy_time::TICK_HZ
}

} // verus!
