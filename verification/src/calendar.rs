//! The calendar date and time of a Unix timestamp, as chrono writes it.

use vstd::prelude::*;

verus! {

/// The text that chrono's `Display` gives the UTC date and time which lies
/// `secs` seconds and `nanos` nanoseconds after the start of 1970, or `None`
/// where chrono's `DateTime::from_timestamp` has no date and time for them.
pub uninterp spec fn utc_text(secs: i64, nanos: u32) -> Option<Seq<char>>;

/// Calls chrono's `DateTime::from_timestamp` and, where that gives a date and
/// time, its `to_string`. Nothing is proved of this call: the contract only
/// gives its result the name `utc_text`, which claims that the same timestamp
/// always gives the same text.
#[verifier::external_body]
pub(crate) fn utc_string(secs: i64, nanos: u32) -> (text: Option<String>)
    ensures
        match text {
            Some(t) => utc_text(secs, nanos) == Some(t@),
            None => utc_text(secs, nanos) is None,
        },
{
    match chrono::DateTime::from_timestamp(secs, nanos) {
        Some(at) => Some(at.to_string()),
        None => None,
    }
}

} // verus!
