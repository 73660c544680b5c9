//! Time, in milliseconds since the server started. Sums and differences are held to the
//! range of a timestamp.

use vstd::prelude::*;

verus! {

/// The time `duration` after `now`, held to the range of a timestamp.
pub open spec fn deadline(now: u64, duration: u64) -> u64 {
    if now + duration > u64::MAX {
        u64::MAX
    } else {
        (now + duration) as u64
    }
}

/// The time that has passed at `now` since `since`; none if `since` is still to come.
pub open spec fn elapsed(since: u64, now: u64) -> u64 {
    if now >= since {
        (now - since) as u64
    } else {
        0
    }
}

/// The time `duration` milliseconds after `now`, held to the range of a timestamp.
pub fn deadline_after(now: u64, duration: u64) -> (r: u64)
    ensures
        r == deadline(now, duration),
{
    if duration > u64::MAX - now {
        u64::MAX
    } else {
        now + duration
    }
}

/// The milliseconds that have passed at `now` since `since`.
pub fn elapsed_since(since: u64, now: u64) -> (r: u64)
    ensures
        r == elapsed(since, now),
{
    if now >= since {
        now - since
    } else {
        0
    }
}

} // verus!
