//! Points in time, and how long a period between two of them counts.

use vstd::prelude::*;

verus! {

/// A reading of a monotonic clock, in nanoseconds since the clock's origin.
#[derive(Clone, Copy, Debug, PartialEq, Eq, Structural)]
pub struct Instant {
    pub nanos: u128,
}

/// The nanoseconds in a millisecond.
pub const NANOS_PER_MILLI: u128 = 1_000_000;

/// The longest period that is reported: a day, in nanoseconds.
pub const MAX_PERIOD_NANOS: u128 = 86_400_000_000_000;

/// The nanoseconds from `start` to `end`; none if `end` is not later.
pub open spec fn elapsed_nanos(start: Instant, end: Instant) -> int {
    if end.nanos > start.nanos {
        end.nanos - start.nanos
    } else {
        0
    }
}

/// How long a period counts: its whole milliseconds, and a day at most.
pub open spec fn period_millis_spec(start: Instant, end: Instant) -> int {
    let elapsed = elapsed_nanos(start, end);
    (if elapsed < MAX_PERIOD_NANOS {
        elapsed
    } else {
        MAX_PERIOD_NANOS as int
    }) / (NANOS_PER_MILLI as int)
}

/// Measures a period in milliseconds.
pub fn period_millis(start: Instant, end: Instant) -> (millis: i64)
    ensures
        millis == period_millis_spec(start, end),
{
    let elapsed: u128 = if end.nanos > start.nanos {
        end.nanos - start.nanos
    } else {
        0
    };
    let counted: u128 = if elapsed < MAX_PERIOD_NANOS {
        elapsed
    } else {
        MAX_PERIOD_NANOS
    };
    (counted / NANOS_PER_MILLI) as i64
}

/// No period counts less than nothing or more than a day.
pub proof fn period_is_bounded(start: Instant, end: Instant)
    ensures
        0 <= period_millis_spec(start, end) <= 86_400_000,
{
}

/// A clock that steps back makes a period empty.
pub proof fn period_backwards_is_empty(start: Instant, end: Instant)
    requires
        end.nanos <= start.nanos,
    ensures
        period_millis_spec(start, end) == 0,
{
}

/// The later a period ends, the longer it counts.
pub proof fn period_grows_with_its_end(start: Instant, end: Instant, later: Instant)
    requires
        end.nanos <= later.nanos,
    ensures
        period_millis_spec(start, end) <= period_millis_spec(start, later),
{
}

/// Whether `millis` are the whole milliseconds from `start` to `end`, up to a day,
/// and none if `end` is not later.
pub open spec fn is_period_millis(start: Instant, end: Instant, millis: int) -> bool {
    let elapsed = end.nanos - start.nanos;
    if elapsed <= 0 {
        millis == 0
    } else if elapsed >= 86_400_000_000_000 {
        millis == 86_400_000
    } else {
        millis * 1_000_000 <= elapsed < (millis + 1) * 1_000_000
    }
}

/// A measured period counts as many milliseconds as pass in it whole. Behind a day
/// nothing is counted, and nothing where the clock steps back.
pub proof fn period_counts_whole_millis(start: Instant, end: Instant, millis: i64)
    requires
        call_ensures(period_millis, (start, end), millis),
    ensures
        end.nanos <= start.nanos ==> millis == 0,
        start.nanos < end.nanos < start.nanos + 86_400_000_000_000 ==> millis * 1_000_000
            <= end.nanos - start.nanos < (millis + 1) * 1_000_000,
        end.nanos >= start.nanos + 86_400_000_000_000 ==> millis == 86_400_000,
        is_period_millis(start, end, millis as int),
{
    period_is_counted(start, end);
}

/// How long a period counts are its whole milliseconds, up to a day.
pub proof fn period_is_counted(start: Instant, end: Instant)
    ensures
        is_period_millis(start, end, period_millis_spec(start, end)),
{
}

} // verus!
