//! The rate limiter: the least time that has to pass between the starts of
//! two requests.
//!
//! Times are whole milliseconds. The clock starts when a request attempt
//! begins, so an identifier that is skipped uses up none of the budget.

use vstd::prelude::*;

verus! {

/// How long the caller still has to wait once `elapsed` has passed since the
/// request began: what is missing to `interval`, and nothing once `interval`
/// has been reached.
pub open spec fn pause_needed(interval: int, elapsed: int) -> int {
    if elapsed < interval {
        interval - elapsed
    } else {
        0
    }
}

/// Tells how long to suspend before the next request may start, given the
/// configured interval and the time that the current request has taken.
pub fn remaining_wait(interval: u64, elapsed: u64) -> (pause: u64)
    ensures
        pause == pause_needed(interval as int, elapsed as int),
        elapsed + pause >= interval,
        elapsed >= interval ==> pause == 0,
{
    if elapsed < interval {
        interval - elapsed
    } else {
        0
    }
}

/// No two requests start less than `interval` apart: a request that starts
/// only after the one before it has run for `elapsed` and the caller has
/// then waited as the limiter says starts at least `interval` after it.
pub proof fn lemma_requests_spaced(interval: int, started: int, elapsed: int, next_started: int)
    requires
        0 <= elapsed,
        started + elapsed + pause_needed(interval, elapsed) <= next_started,
    ensures
        next_started - started >= interval,
{
}

/// The limiter asks for no more than the interval, and for less the longer
/// the request has taken.
pub proof fn lemma_pause_bounded(interval: int, elapsed: int, later: int)
    requires
        0 <= elapsed <= later,
        0 <= interval,
    ensures
        0 <= pause_needed(interval, later) <= pause_needed(interval, elapsed) <= interval,
{
}

} // verus!
