//! What holds of every session, proved of the model in `session`.

use vstd::prelude::*;
use crate::command::Command;
use crate::decimal::{integer_of, lemma_numeral_denotes, signed_numeral};
use crate::session::{accumulated_of, next, target_of, worked, Answer, Session};
use crate::span::NANOS_PER_HOUR;

verus! {

/// A session that awaits the target hours and is sent a text that denotes the
/// integer `hours` then rests, with that many hours as its target and nothing
/// worked yet.
pub proof fn lemma_hours_set_the_target(
    text: Seq<char>,
    hours: int,
    command: Option<Command>,
    now: int,
)
    requires
        integer_of(text) == Some(hours),
    ensures
        next(Session::ReceiveTargetHours, command, Some(text), now) == (
            Session::Rest { target: hours * NANOS_PER_HOUR, accumulated: 0 },
            Answer::SetupDone,
        ),
{
}

/// Every 64-bit signed integer can be sent as the target hours: its numeral
/// denotes it, and so sets that many hours as the target.
pub proof fn lemma_every_hour_count_can_be_sent(hours: int, command: Option<Command>, now: int)
    requires
        i64::MIN <= hours <= i64::MAX,
    ensures
        integer_of(signed_numeral(hours)) == Some(hours),
        next(Session::ReceiveTargetHours, command, Some(signed_numeral(hours)), now) == (
            Session::Rest { target: hours * NANOS_PER_HOUR, accumulated: 0 },
            Answer::SetupDone,
        ),
{
    lemma_numeral_denotes(hours);
}

/// A session that awaits the target hours and is sent anything but the
/// numeral of an integer stays as it is and asks again.
pub proof fn lemma_other_text_is_asked_again(
    text: Option<Seq<char>>,
    command: Option<Command>,
    now: int,
)
    requires
        text matches Some(t) ==> integer_of(t) is None,
    ensures
        next(Session::ReceiveTargetHours, command, text, now) == (
            Session::ReceiveTargetHours,
            Answer::BadHours,
        ),
{
}

/// The session after it was asked for the status at each of `times` in turn.
pub open spec fn after_status_at(session: Session, times: Seq<int>) -> Session
    decreases times.len(),
{
    if times.len() == 0 {
        session
    } else {
        next(after_status_at(session, times.drop_last()), Some(Command::Status), None, times.last()).0
    }
}

/// Asking a resting or working session for the status, however often and
/// whenever, leaves it as it is.
pub proof fn lemma_status_keeps_the_session(session: Session, times: Seq<int>)
    requires
        session is Rest || session is Work,
    ensures
        after_status_at(session, times) == session,
    decreases times.len(),
{
    if times.len() > 0 {
        lemma_status_keeps_the_session(session, times.drop_last());
    }
}

/// While a session works, the time that a later status shows is no less than
/// what an earlier one showed, and exceeds it by the time between the two.
pub proof fn lemma_status_advances_with_time(
    target: int,
    accumulated: int,
    started_at: int,
    earlier: int,
    later: int,
)
    requires
        earlier <= later,
    ensures
        ({
            let session = Session::Work { target, accumulated, started_at };
            let first = next(session, Some(Command::Status), None, earlier).1;
            let second = next(session, Some(Command::Status), None, later).1;
            &&& first == Answer::Status { done: worked(accumulated, started_at, earlier), target }
            &&& second == Answer::Status { done: worked(accumulated, started_at, later), target }
            &&& first->Status_done <= second->Status_done
            &&& second->Status_done - first->Status_done == later - earlier
        }),
{
}

/// The time between the start of work and its end is counted once, whatever
/// statuses were asked for in between.
pub proof fn lemma_rest_counts_once(
    target: int,
    accumulated: int,
    started_at: int,
    times: Seq<int>,
    now: int,
)
    ensures
        ({
            let session = Session::Work { target, accumulated, started_at };
            next(after_status_at(session, times), Some(Command::Rest), None, now).0
                == Session::Rest { target, accumulated: accumulated + (now - started_at) }
        }),
{
    lemma_status_keeps_the_session(Session::Work { target, accumulated, started_at }, times);
}

/// To rest, to work again and to rest again adds to the time worked exactly
/// the time between the second start and the second end: nothing, where the
/// two are the same moment.
pub proof fn lemma_rest_work_rest(
    target: int,
    accumulated: int,
    started_at: int,
    first_rest: int,
    second_work: int,
    second_rest: int,
)
    ensures
        ({
            let working = Session::Work { target, accumulated, started_at };
            let rested = next(working, Some(Command::Rest), None, first_rest).0;
            let resumed = next(rested, Some(Command::Work), None, second_work).0;
            let rested_again = next(resumed, Some(Command::Rest), None, second_rest).0;
            &&& rested == Session::Rest {
                target,
                accumulated: worked(accumulated, started_at, first_rest),
            }
            &&& rested_again == Session::Rest {
                target,
                accumulated: worked(accumulated, started_at, first_rest) + (second_rest
                    - second_work),
            }
            &&& second_rest == second_work ==> rested_again == rested
        }),
{
}

/// Once a target is set, no message changes it.
pub proof fn lemma_target_is_kept(
    session: Session,
    command: Option<Command>,
    text: Option<Seq<char>>,
    now: int,
)
    requires
        target_of(session) is Some,
    ensures
        target_of(next(session, command, text, now).0) == target_of(session),
{
}

/// The time worked changes only when a working session is told to rest. It
/// then grows by the time since work started, and so does not shrink as long
/// as the clock has not gone back.
pub proof fn lemma_accumulated_changes_on_rest_only(
    session: Session,
    command: Option<Command>,
    text: Option<Seq<char>>,
    now: int,
)
    requires
        accumulated_of(session) is Some,
    ensures
        ({
            let after = next(session, command, text, now).0;
            let before = accumulated_of(session)->0;
            if session is Work && command == Some(Command::Rest) {
                &&& after is Rest
                &&& accumulated_of(after) == Some(before + (now - session->Work_started_at))
                &&& now >= session->Work_started_at ==> accumulated_of(after)->0 >= before
            } else {
                accumulated_of(after) == Some(before)
            }
        }),
{
}

/// A message that the state does not take leaves the session as it is:
/// every command but `Help` in `Start`; every message but `Work` and
/// `Status` in `Rest`, and every message but `Rest` and `Status` in `Work`.
pub proof fn lemma_other_messages_change_nothing(
    session: Session,
    command: Option<Command>,
    text: Option<Seq<char>>,
    now: int,
)
    requires
        match session {
            Session::Start => command != Some(Command::Help),
            Session::ReceiveTargetHours => false,
            Session::Rest { .. } => command != Some(Command::Work) && command != Some(
                Command::Status,
            ),
            Session::Work { .. } => command != Some(Command::Rest) && command != Some(
                Command::Status,
            ),
        },
    ensures
        next(session, command, text, now) == (session, Answer::Unhandled),
{
}

} // verus!
