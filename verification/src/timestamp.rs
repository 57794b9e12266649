//! Points in time, counted in nanoseconds from the start of 1970 in UTC.

use vstd::prelude::*;
use crate::calendar::{utc_string, utc_text};
use crate::span::{fits_span, Span, NANOS_PER_SECOND};

verus! {

/// The whole seconds from the start of 1970 to the point in time `at`,
/// rounded down.
pub open spec fn unix_seconds(at: int) -> int {
    at / (NANOS_PER_SECOND as int)
}

/// The nanoseconds from the last whole second to the point in time `at`.
pub open spec fn subsec_nanos(at: int) -> int {
    at % (NANOS_PER_SECOND as int)
}

/// The calendar text of the point in time `at`, where there is one.
pub open spec fn calendar_text(at: int) -> Option<Seq<char>> {
    if i64::MIN <= unix_seconds(at) <= i64::MAX {
        utc_text(unix_seconds(at) as i64, subsec_nanos(at) as u32)
    } else {
        None
    }
}

/// A point in time. Its view is the nanoseconds from the start of 1970 in
/// UTC to it, negative for a point before that.
#[derive(Clone, Copy, Debug, PartialEq, Eq, Structural)]
pub struct Timestamp {
    pub nanos: i128,
}

impl View for Timestamp {
    type V = int;

    open spec fn view(&self) -> int {
        self.nanos as int
    }
}

impl Timestamp {
    /// The point in time `secs` seconds and `nanos` nanoseconds after the
    /// start of 1970.
    pub fn from_unix(secs: i64, nanos: u32) -> (at: Timestamp)
        ensures
            at@ == secs * NANOS_PER_SECOND + nanos,
    {
        Timestamp { nanos: secs as i128 * NANOS_PER_SECOND + nanos as i128 }
    }

    /// The whole seconds since the start of 1970, rounded down, and the
    /// nanoseconds since that second; `None` where the seconds are more than
    /// 64 bits hold.
    pub fn unix_parts(&self) -> (parts: Option<(i64, u32)>)
        ensures
            parts is Some <==> i64::MIN <= unix_seconds(self@) <= i64::MAX,
            parts matches Some((secs, nanos)) ==> secs == unix_seconds(self@) && nanos
                == subsec_nanos(self@),
    {
        let toward_zero: i128 = self.nanos / NANOS_PER_SECOND;
        let rest: i128 = self.nanos % NANOS_PER_SECOND;
        let (secs, nanos): (i128, i128) = if rest < 0 {
            (toward_zero - 1, rest + NANOS_PER_SECOND)
        } else {
            (toward_zero, rest)
        };
        if -0x8000_0000_0000_0000 <= secs && secs <= 0x7fff_ffff_ffff_ffff {
            Some((secs as i64, nanos as u32))
        } else {
            None
        }
    }

    /// `before` and the time from `earlier` to `self` together, or `None`
    /// where that is beyond what a span can hold. The sum is found wherever
    /// it is within reach, also where the time between the two points alone
    /// is not.
    pub fn add_time_since(&self, earlier: &Timestamp, before: Span) -> (sum: Option<Span>)
        ensures
            sum is Some <==> fits_span(before@ + (self@ - earlier@)),
            sum matches Some(s) ==> s@ == before@ + (self@ - earlier@),
    {
        let nanos = match self.nanos.checked_sub(earlier.nanos) {
            Some(between) => before.nanos.checked_add(between),
            None => match before.nanos.checked_add(self.nanos) {
                Some(ahead) => ahead.checked_sub(earlier.nanos),
                None => match before.nanos.checked_sub(earlier.nanos) {
                    Some(behind) => behind.checked_add(self.nanos),
                    None => None,
                },
            },
        };
        match nanos {
            Some(nanos) => Some(Span { nanos }),
            None => None,
        }
    }

    /// The date and time in UTC as text, where the calendar reaches as far.
    pub fn calendar_string(&self) -> (text: Option<String>)
        ensures
            match text {
                Some(t) => calendar_text(self@) == Some(t@),
                None => calendar_text(self@) is None,
            },
    {
        match self.unix_parts() {
            Some((secs, nanos)) => utc_string(secs, nanos),
            None => None,
        }
    }
}

} // verus!
