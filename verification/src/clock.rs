//! Points and spans of monotonic time.

use vstd::prelude::*;

verus! {

pub const NANOS_PER_MILLI: u64 = 1_000_000;

pub const NANOS_PER_SEC: u64 = 1_000_000_000;

/// A point on the monotonic clock, in nanoseconds since the clock's origin.
#[derive(Debug, Clone, Copy, PartialEq, Eq, Structural)]
pub struct Instant {
    pub nanos: u64,
}

/// A span of time in nanoseconds.
#[derive(Debug, Clone, Copy, PartialEq, Eq, Structural)]
pub struct Duration {
    pub nanos: u64,
}

impl Instant {
    /// The span from an earlier point to a later one; nothing if it is not later.
    pub open spec fn since(self, earlier: Instant) -> Duration {
        Duration {
            nanos: if self.nanos < earlier.nanos {
                0
            } else {
                (self.nanos - earlier.nanos) as u64
            },
        }
    }

    pub fn saturating_duration_since(&self, earlier: Instant) -> (r: Duration)
        ensures
            r == self.since(earlier),
    {
        Duration {
            nanos: if self.nanos < earlier.nanos {
                0
            } else {
                self.nanos - earlier.nanos
            },
        }
    }
}

impl Duration {
    pub fn from_secs(secs: u64) -> (r: Self)
        requires
            secs * NANOS_PER_SEC <= u64::MAX,
        ensures
            r.nanos == secs * NANOS_PER_SEC,
    {
        Duration { nanos: secs * NANOS_PER_SEC }
    }

    pub fn is_zero(&self) -> (r: bool)
        ensures
            r == (self.nanos == 0),
    {
        self.nanos == 0
    }

    /// Whole milliseconds.
    pub fn as_millis(&self) -> (r: u64)
        ensures
            r == self.nanos / NANOS_PER_MILLI,
    {
        self.nanos / NANOS_PER_MILLI
    }
}

/// The span between two points, added to the earlier one, gives the later one; there is
/// none back in time.
pub proof fn law_a_span_leads_from_one_point_to_the_other(earlier: Instant, later: Instant)
    ensures
        later.nanos >= earlier.nanos ==> earlier.nanos + later.since(earlier).nanos == later.nanos,
        later.nanos <= earlier.nanos ==> later.since(earlier).nanos == 0,
{
}

/// A second has a thousand million nanoseconds, and a thousand milliseconds.
pub proof fn law_seconds_and_milliseconds_agree(secs: u64, span: Duration, millis: u64)
    requires
        secs * 1_000_000_000 <= u64::MAX,
        call_ensures(Duration::from_secs, (secs,), span),
        call_ensures(Duration::as_millis, (&span,), millis),
    ensures
        span.nanos == secs * 1_000_000_000,
        millis == secs * 1000,
{
}

} // verus!
