//! Reconnecting a device with exponential backoff.
//!
//! Delays are counted in nanoseconds, the unit of `std::time::Duration`.

use vstd::prelude::*;

verus! {

/// The longest `Duration`, in nanoseconds.
pub open spec fn max_duration_nanos() -> int {
    18446744073709551615int * 1_000_000_000int + 999_999_999int
}

/// The delay after a failed attempt: twice the last one, capped at `max`.
pub open spec fn backoff(delay: int, max: int) -> int {
    if 2 * delay <= max {
        2 * delay
    } else {
        max
    }
}

/// What to do after an attempt to reattach.
pub enum ReconnectStep {
    /// The device is back: stop.
    Done,
    /// Wait this many nanoseconds, then try again.
    RetryAfter(u128),
}

/// The next step after an attempt that waited `delay` nanoseconds first.
pub fn after_attempt(succeeded: bool, delay: u128, max_delay: u128) -> (r: ReconnectStep)
    requires
        2 * delay <= max_duration_nanos(),
    ensures
        succeeded ==> r is Done,
        !succeeded ==> (r matches ReconnectStep::RetryAfter(d) && d == backoff(delay as int, max_delay as int)),
{
    if succeeded {
        ReconnectStep::Done
    } else {
        let doubled = delay * 2;
        ReconnectStep::RetryAfter(if doubled <= max_delay { doubled } else { max_delay })
    }
}

/// The delay before attempt `n` (counted from 0), starting from `base`.
pub open spec fn delay_before(base: int, max: int, n: nat) -> int
    decreases n,
{
    if n == 0 {
        base
    } else {
        backoff(delay_before(base, max, (n - 1) as nat), max)
    }
}

/// Once the first delay is at most the cap, the delays never decrease
/// and never exceed the cap; each is the first one doubled once per
/// failure, until the cap.
pub proof fn law_backoff_bounded(base: int, max: int, n: nat)
    requires
        0 <= base <= max,
    ensures
        base <= delay_before(base, max, n) <= max,
        delay_before(base, max, n) <= delay_before(base, max, n + 1),
    decreases n,
{
    if n > 0 {
        law_backoff_bounded(base, max, (n - 1) as nat);
    }
}

} // verus!
