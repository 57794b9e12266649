//! The rules of a session, as a mathematical model.
//!
//! Time is counted in nanoseconds and is unbounded here: a span is an `int`, a
//! point in time is the `int` of nanoseconds since the start of 1970.

use vstd::prelude::*;
use crate::command::Command;
use crate::decimal::integer_of;
use crate::span::{fits_span, NANOS_PER_HOUR};

verus! {

/// What a session remembers between two messages.
pub enum Session {
    /// Nothing is set up yet.
    Start,
    /// The user was shown the commands and is to send the target hours.
    ReceiveTargetHours,
    /// The user rests. `accumulated` is the time worked so far.
    Rest { target: int, accumulated: int },
    /// The user works, since `started_at`. `accumulated` is the time worked
    /// before that.
    Work { target: int, accumulated: int, started_at: int },
}

/// What a session answers to a message.
pub enum Answer {
    /// The list of commands.
    Usage,
    /// The target is set; the user may now work or ask for the status.
    SetupDone,
    /// What was sent is not a number of hours.
    BadHours,
    /// Work started at `at`; the user may now rest or ask for the status.
    StartedWork { at: int },
    /// `done` of `target` is worked.
    Status { done: int, target: int },
    /// Work stopped with `done` of `target` worked; the user may now work
    /// again or ask for the status.
    WorkDone { done: int, target: int },
    /// The message is not one that the state takes.
    Unhandled,
}

/// The time worked up to `now` by one who has `accumulated` behind them and
/// works since `started_at`.
pub open spec fn worked(accumulated: int, started_at: int, now: int) -> int {
    accumulated + (now - started_at)
}

/// In `Start`, the command `Help`: the commands are listed and the target
/// hours awaited.
pub open spec fn help() -> (Session, Answer) {
    (Session::ReceiveTargetHours, Answer::Usage)
}

/// In `ReceiveTargetHours`, any message. A text that is the numeral of an
/// integer sets that many hours as the target, with nothing worked yet.
/// Anything else, a message without text too, is asked for again.
pub open spec fn receive_target_hours(text: Option<Seq<char>>) -> (Session, Answer) {
    match text {
        Some(t) => match integer_of(t) {
            Some(hours) => (
                Session::Rest { target: hours * NANOS_PER_HOUR, accumulated: 0 },
                Answer::SetupDone,
            ),
            None => (Session::ReceiveTargetHours, Answer::BadHours),
        },
        None => (Session::ReceiveTargetHours, Answer::BadHours),
    }
}

/// In `Rest`, the command `Work`: work starts now.
pub open spec fn work(target: int, accumulated: int, now: int) -> (Session, Answer) {
    (Session::Work { target, accumulated, started_at: now }, Answer::StartedWork { at: now })
}

/// In `Rest`, the command `Status`: the time worked against the target.
pub open spec fn rest_status(target: int, accumulated: int) -> (Session, Answer) {
    (Session::Rest { target, accumulated }, Answer::Status { done: accumulated, target })
}

/// In `Work`, the command `Rest`: the time since work started is added to the
/// time worked, and that is the only way in which the time worked changes.
pub open spec fn rest(target: int, accumulated: int, started_at: int, now: int) -> (
    Session,
    Answer,
) {
    let done = worked(accumulated, started_at, now);
    (Session::Rest { target, accumulated: done }, Answer::WorkDone { done, target })
}

/// In `Work`, the command `Status`: the time that would be worked if work
/// stopped now. Nothing of it is kept.
pub open spec fn work_status(target: int, accumulated: int, started_at: int, now: int) -> (
    Session,
    Answer,
) {
    (
        Session::Work { target, accumulated, started_at },
        Answer::Status { done: worked(accumulated, started_at, now), target },
    )
}

/// Any message that the state does not take: the session stays as it is.
pub open spec fn invalid_state(session: Session) -> (Session, Answer) {
    (session, Answer::Unhandled)
}

/// The session's next state and its answer to a message that arrives at `now`.
/// `command` is the command that the message is, if it is one, and `text` is
/// its text, if it has one.
pub open spec fn next(
    session: Session,
    command: Option<Command>,
    text: Option<Seq<char>>,
    now: int,
) -> (Session, Answer) {
    match session {
        Session::Start => match command {
            Some(Command::Help) => help(),
            _ => invalid_state(session),
        },
        Session::ReceiveTargetHours => receive_target_hours(text),
        Session::Rest { target, accumulated } => match command {
            Some(Command::Work) => work(target, accumulated, now),
            Some(Command::Status) => rest_status(target, accumulated),
            _ => invalid_state(session),
        },
        Session::Work { target, accumulated, started_at } => match command {
            Some(Command::Rest) => rest(target, accumulated, started_at, now),
            Some(Command::Status) => work_status(target, accumulated, started_at, now),
            _ => invalid_state(session),
        },
    }
}

/// Whether the time worked up to `now` has to be worked out to answer the
/// message: in `Work`, for the commands `Rest` and `Status`.
pub open spec fn asks_time_worked(session: Session, command: Option<Command>) -> bool {
    session is Work && (command == Some(Command::Rest) || command == Some(Command::Status))
}

/// Whether the message can be answered with spans of the size that the
/// executable session holds: the time worked up to `now`, where it has to be
/// worked out, is within the reach of a span.
pub open spec fn in_reach(session: Session, command: Option<Command>, now: int) -> bool {
    asks_time_worked(session, command) ==> fits_span(
        worked(session->Work_accumulated, session->Work_started_at, now),
    )
}

/// The target of a session that has one.
pub open spec fn target_of(session: Session) -> Option<int> {
    match session {
        Session::Rest { target, .. } => Some(target),
        Session::Work { target, .. } => Some(target),
        _ => None,
    }
}

/// The time worked that a session holds, if it holds one.
pub open spec fn accumulated_of(session: Session) -> Option<int> {
    match session {
        Session::Rest { accumulated, .. } => Some(accumulated),
        Session::Work { accumulated, .. } => Some(accumulated),
        _ => None,
    }
}

} // verus!
