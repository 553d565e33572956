//! Spans of time as plain values.
use vstd::prelude::*;

verus! {

/// Nanoseconds in one second.
pub const NANOS_PER_SECOND: u128 = 1_000_000_000;

/// Nanoseconds in the longest span.
pub const MAX_NANOS: u128 = 18_446_744_073_709_551_615_999_999_999;

/// A span of time, at most 2^64 seconds less one nanosecond.
#[derive(Debug, Clone, Copy, PartialEq, Eq, PartialOrd, Ord, Structural)]
pub struct Duration {
    pub nanos: u128,
}

impl Duration {
    /// Whether the span is not longer than the longest one.
    pub open spec fn wf(self) -> bool {
        self.nanos <= MAX_NANOS
    }

    /// Span of a whole number of seconds.
    pub fn from_secs(seconds: u64) -> (span: Self)
        ensures
            span.nanos == seconds * NANOS_PER_SECOND,
            span.wf(),
    {
        Duration { nanos: seconds as u128 * NANOS_PER_SECOND }
    }

    /// Span of a whole number of milliseconds.
    pub fn from_millis(millis: u64) -> (span: Self)
        ensures
            span.nanos == millis * 1_000_000,
            span.wf(),
    {
        Duration { nanos: millis as u128 * 1_000_000 }
    }

    /// Sum of two spans, cut at the longest span.
    pub fn saturating_add(self, other: Duration) -> (sum: Duration)
        requires
            self.wf(),
            other.wf(),
        ensures
            sum.wf(),
            sum.nanos == if self.nanos + other.nanos <= MAX_NANOS {
                self.nanos + other.nanos
            } else {
                MAX_NANOS as int
            },
    {
        if self.nanos <= MAX_NANOS - other.nanos {
            Duration { nanos: self.nanos + other.nanos }
        } else {
            Duration { nanos: MAX_NANOS }
        }
    }

    /// Difference of two spans, cut at zero.
    pub fn saturating_sub(self, other: Duration) -> (difference: Duration)
        ensures
            difference.nanos == if self.nanos >= other.nanos {
                self.nanos - other.nanos
            } else {
                0
            },
            self.wf() ==> difference.wf(),
    {
        if self.nanos >= other.nanos {
            Duration { nanos: self.nanos - other.nanos }
        } else {
            Duration { nanos: 0 }
        }
    }
}

/// A second has a thousand milliseconds, and a millisecond a million nanoseconds.
/// Sums stop at the longest span and differences at none, and what was added can be
/// taken away again.
pub proof fn law_spans_add_up(
    seconds: u64,
    whole: Duration,
    millis: u64,
    part: Duration,
    a: Duration,
    b: Duration,
    sum: Duration,
    back: Duration,
)
    requires
        a.wf(),
        b.wf(),
        call_ensures(Duration::from_secs, (seconds,), whole),
        call_ensures(Duration::from_millis, (millis,), part),
        call_ensures(Duration::saturating_add, (a, b), sum),
        call_ensures(Duration::saturating_sub, (sum, b), back),
    ensures
        whole.nanos == seconds * 1_000_000_000,
        part.nanos * 1_000 == millis * 1_000_000_000,
        sum.nanos == vstd::math::min(
            a.nanos + b.nanos,
            18_446_744_073_709_551_615int * 1_000_000_000 + 999_999_999,
        ),
        sum.nanos >= a.nanos && sum.nanos >= b.nanos,
        a.nanos + b.nanos == sum.nanos ==> back == a,
        back.nanos == sum.nanos - b.nanos,
{
}

} // verus!
