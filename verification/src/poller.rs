//! Timing rules of the input poller.
//!
//! The poller runs at a fixed tick rate: each iteration waits for terminal
//! input with a timeout capped at the time left until the next tick
//! boundary, and emits a tick once the boundary is reached.  The waiting
//! and reading live with the caller; the arithmetic is here.

use vstd::prelude::*;

verus! {

/// The tick interval of the input poller in milliseconds (60 ticks per
/// second).
pub const TICK_INTERVAL_MS: u64 = 1000 / 60;

/// How long the poller may wait for input before the next tick is due:
/// the remainder of the tick interval, or nothing once the boundary has
/// passed.
pub fn poll_timeout_ms(tick_interval_ms: u64, elapsed_ms: u64) -> (r: u64)
    ensures
        elapsed_ms < tick_interval_ms ==> r == tick_interval_ms - elapsed_ms,
        elapsed_ms >= tick_interval_ms ==> r == 0,
{
    if elapsed_ms < tick_interval_ms {
        tick_interval_ms - elapsed_ms
    } else {
        0
    }
}

/// Is a tick due, given the time elapsed since the last one?
pub fn tick_due(tick_interval_ms: u64, elapsed_ms: u64) -> (r: bool)
    ensures
        r == (elapsed_ms >= tick_interval_ms),
{
    elapsed_ms >= tick_interval_ms
}

} // verus!
