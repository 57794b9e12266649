//! Spans of time written as hours, minutes and seconds.

use vstd::arithmetic::div_mod::{lemma_div_denominator, lemma_fundamental_div_mod};
use vstd::prelude::*;
use vstd::string::*;
use crate::decimal::{
    digit_char, lemma_numeral_is_digits, numeral, push_signed_numeral, signed_numeral,
};
use crate::span::{quotient, remainder, Span, NANOS_PER_SECOND};

verus! {

/// A number as a field of at least two characters: a single digit gets a zero
/// in front, anything longer is written as it is.
pub open spec fn two_digits(n: int) -> Seq<char> {
    if 0 <= n < 10 {
        seq!['0'] + numeral(n as nat)
    } else {
        signed_numeral(n)
    }
}

/// `secs` seconds as `HH:MM:SS`: the hours, which are not wrapped at 24, the
/// minutes within the hour and the seconds within the minute. Of a negative
/// time, each field that is not zero is negative and carries its sign.
pub open spec fn clock_text(secs: int) -> Seq<char> {
    two_digits(quotient(secs, 3600)) + seq![':'] + two_digits(
        remainder(quotient(secs, 60), 60),
    ) + seq![':'] + two_digits(remainder(secs, 60))
}

/// The whole seconds of a span of `nanos` nanoseconds as `HH:MM:SS`.
pub open spec fn span_text(nanos: int) -> Seq<char> {
    clock_text(quotient(nanos, NANOS_PER_SECOND as int))
}

/// A number below a hundred is written as exactly its two digits, the tens
/// first; no other field is shorter than that.
pub proof fn lemma_two_digits(n: int)
    ensures
        two_digits(n).len() >= 2,
        0 <= n < 100 ==> two_digits(n) == seq![digit_char(n / 10), digit_char(n % 10)],
{
    if 0 <= n < 10 {
        assert(two_digits(n) =~= seq![digit_char(0), digit_char(n)]);
    } else if n < 0 {
        lemma_numeral_is_digits((-n) as nat);
    } else {
        lemma_numeral_is_digits((n / 10) as nat);
        if n < 100 {
            assert(two_digits(n) =~= seq![digit_char(n / 10), digit_char(n % 10)]);
        }
    }
}

/// The whole hours in a time that is not negative are the whole hours in its
/// whole minutes, and hours, minutes and seconds make up the time again.
proof fn lemma_hours_minutes_seconds(secs: int)
    requires
        secs >= 0,
    ensures
        secs / 3600 == (secs / 60) / 60,
        (secs / 3600) * 3600 + ((secs / 60) % 60) * 60 + secs % 60 == secs,
{
    lemma_div_denominator(secs, 60, 60);
    lemma_fundamental_div_mod(secs, 60);
    lemma_fundamental_div_mod(secs / 60, 60);
}

/// The three fields of `HH:MM:SS` make up the seconds again. Of a time that
/// is not negative, the hours are the whole hours in it, and the minutes and
/// the seconds are each from 0 to 59.
pub proof fn lemma_clock_fields(secs: int)
    ensures
        ({
            let hours = quotient(secs, 3600);
            let minutes = remainder(quotient(secs, 60), 60);
            let seconds = remainder(secs, 60);
            &&& hours * 3600 + minutes * 60 + seconds == secs
            &&& hours == quotient(quotient(secs, 60), 60)
            &&& secs >= 0 ==> hours == secs / 3600 && minutes == (secs / 60) % 60 && seconds
                == secs % 60
            &&& secs >= 0 ==> 0 <= minutes <= 59 && 0 <= seconds <= 59
        }),
{
    if secs >= 0 {
        lemma_hours_minutes_seconds(secs);
    } else {
        lemma_hours_minutes_seconds(-secs);
    }
}

/// Appends `n` to `out` as a field of at least two characters.
pub fn push_two_digits(out: &mut String, n: i128)
    ensures
        final(out)@ == old(out)@ + two_digits(n as int),
{
    if 0 <= n && n < 10 {
        out.append("0");
        proof {
            reveal_strlit("0");
        }
    }
    push_signed_numeral(out, n);
    assert(final(out)@ =~= old(out)@ + two_digits(n as int));
}

/// Appends `secs` seconds to `out` as `HH:MM:SS`.
pub fn push_clock(out: &mut String, secs: i128)
    ensures
        final(out)@ == old(out)@ + clock_text(secs as int),
{
    proof {
        reveal_strlit(":");
    }
    push_two_digits(out, secs / 3600);
    out.append(":");
    push_two_digits(out, (secs / 60) % 60);
    out.append(":");
    push_two_digits(out, secs % 60);
    assert(final(out)@ =~= old(out)@ + clock_text(secs as int));
}

/// `secs` seconds as `HH:MM:SS`.
pub fn clock(secs: i128) -> (text: String)
    ensures
        text@ == clock_text(secs as int),
{
    let mut text = String::new();
    push_clock(&mut text, secs);
    assert(text@ =~= clock_text(secs as int));
    text
}

/// Appends the whole seconds of `span` to `out` as `HH:MM:SS`.
pub fn push_span(out: &mut String, span: Span)
    ensures
        final(out)@ == old(out)@ + span_text(span@),
{
    push_clock(out, span.whole_seconds());
}

} // verus!
