//! Spans of time, counted in nanoseconds, and division that rounds toward zero.

use vstd::prelude::*;

verus! {

/// The nanoseconds in one second.
pub const NANOS_PER_SECOND: i128 = 1_000_000_000;

/// The nanoseconds in one hour.
pub const NANOS_PER_HOUR: i128 = 3_600_000_000_000;

/// `a` divided by a positive `b`, rounded toward zero.
pub open spec fn quotient(a: int, b: int) -> int
    recommends
        b > 0,
{
    if a >= 0 {
        a / b
    } else {
        -((-a) / b)
    }
}

/// What is left of `a` after `quotient(a, b)` times `b`: it has the sign of `a`.
pub open spec fn remainder(a: int, b: int) -> int
    recommends
        b > 0,
{
    if a >= 0 {
        a % b
    } else {
        -((-a) % b)
    }
}

/// Whether a span can hold `nanos` nanoseconds.
pub open spec fn fits_span(nanos: int) -> bool {
    i128::MIN <= nanos <= i128::MAX
}

/// A signed span of time. Its view is its length in nanoseconds.
#[derive(Clone, Copy, Debug, PartialEq, Eq, Structural)]
pub struct Span {
    pub nanos: i128,
}

impl View for Span {
    type V = int;

    open spec fn view(&self) -> int {
        self.nanos as int
    }
}

impl Span {
    /// The empty span.
    pub fn zero() -> (span: Span)
        ensures
            span@ == 0,
    {
        Span { nanos: 0 }
    }

    /// The span of `hours` hours.
    pub fn hours(hours: i64) -> (span: Span)
        ensures
            span@ == hours * NANOS_PER_HOUR,
    {
        Span { nanos: hours as i128 * NANOS_PER_HOUR }
    }

    /// The span of `seconds` seconds.
    pub fn seconds(seconds: i64) -> (span: Span)
        ensures
            span@ == seconds * NANOS_PER_SECOND,
    {
        Span { nanos: seconds as i128 * NANOS_PER_SECOND }
    }

    /// The whole seconds in the span, rounded toward zero.
    pub fn whole_seconds(self) -> (seconds: i128)
        ensures
            seconds == quotient(self@, NANOS_PER_SECOND as int),
    {
        self.nanos / NANOS_PER_SECOND
    }
}

} // verus!
