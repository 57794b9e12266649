//! The executable session: its state, and what each message does to it.

use vstd::prelude::*;
use crate::command::Command;
use crate::decimal::parse_integer;
use crate::reply::Reply;
use crate::session;
use crate::session::{in_reach, worked, Answer, Session};
use crate::span::{fits_span, Span};
use crate::timestamp::Timestamp;

verus! {

/// What a session remembers between two messages. Its view is the `Session`
/// of the model, with each span and point in time as its nanoseconds.
#[derive(Clone, Copy, Debug, PartialEq, Eq, Structural)]
pub enum State {
    /// Nothing is set up yet.
    Start,
    /// The user was shown the commands and is to send the target hours.
    ReceiveTargetHours,
    /// The user rests. `cur_hours` is the time worked so far.
    Rest { target_hours: Span, cur_hours: Span },
    /// The user works, since `work_start`. `cur_hours` is the time worked
    /// before that.
    Work { target_hours: Span, cur_hours: Span, work_start: Timestamp },
}

impl View for State {
    type V = Session;

    open spec fn view(&self) -> Session {
        match *self {
            State::Start => Session::Start,
            State::ReceiveTargetHours => Session::ReceiveTargetHours,
            State::Rest { target_hours, cur_hours } => Session::Rest {
                target: target_hours@,
                accumulated: cur_hours@,
            },
            State::Work { target_hours, cur_hours, work_start } => Session::Work {
                target: target_hours@,
                accumulated: cur_hours@,
                started_at: work_start@,
            },
        }
    }
}

impl Default for State {
    /// A session begins in `Start`.
    fn default() -> (state: State)
        ensures
            state == State::Start,
    {
        State::Start
    }
}

/// The state after a message, and the answer to it. Its view is the pair of
/// the two views.
#[derive(Clone, Copy, Debug, PartialEq, Eq, Structural)]
pub struct Outcome {
    pub state: State,
    pub reply: Reply,
}

impl View for Outcome {
    type V = (Session, Answer);

    open spec fn view(&self) -> (Session, Answer) {
        (self.state@, self.reply@)
    }
}

/// The time worked is beyond what a span can hold.
#[derive(Clone, Copy, Debug, PartialEq, Eq, Structural)]
pub struct Overflow;

/// The text of a message, if it has one, as the model takes it.
pub open spec fn text_view(text: Option<&str>) -> Option<Seq<char>> {
    match text {
        Some(t) => Some(t@),
        None => None,
    }
}

/// In `Start`, the command `Help`.
pub fn help() -> (out: Outcome)
    ensures
        out@ == session::help(),
{
    Outcome { state: State::ReceiveTargetHours, reply: Reply::Usage }
}

/// In `ReceiveTargetHours`, any message, with its text if it has one.
pub fn receive_target_hours(text: Option<&str>) -> (out: Outcome)
    ensures
        out@ == session::receive_target_hours(text_view(text)),
{
    let hours = match text {
        Some(t) => parse_integer(t),
        None => None,
    };
    match hours {
        Some(hours) => Outcome {
            state: State::Rest { target_hours: Span::hours(hours), cur_hours: Span::zero() },
            reply: Reply::SetupDone,
        },
        None => Outcome { state: State::ReceiveTargetHours, reply: Reply::BadHours },
    }
}

/// In `Rest`, the command `Work`, at `now`.
pub fn work(target_hours: Span, cur_hours: Span, now: Timestamp) -> (out: Outcome)
    ensures
        out@ == session::work(target_hours@, cur_hours@, now@),
{
    Outcome {
        state: State::Work { target_hours, cur_hours, work_start: now },
        reply: Reply::StartedWork { at: now },
    }
}

/// In `Rest`, the command `Status`.
pub fn rest_status(target_hours: Span, cur_hours: Span) -> (out: Outcome)
    ensures
        out@ == session::rest_status(target_hours@, cur_hours@),
{
    Outcome {
        state: State::Rest { target_hours, cur_hours },
        reply: Reply::Status { done: cur_hours, target: target_hours },
    }
}

/// The time worked up to `now` by one who has `cur_hours` behind them and
/// works since `work_start`.
pub fn time_worked(cur_hours: Span, work_start: Timestamp, now: Timestamp) -> (done: Result<
    Span,
    Overflow,
>)
    ensures
        done is Ok <==> fits_span(worked(cur_hours@, work_start@, now@)),
        done matches Ok(d) ==> d@ == worked(cur_hours@, work_start@, now@),
{
    match now.add_time_since(&work_start, cur_hours) {
        Some(done) => Ok(done),
        None => Err(Overflow),
    }
}

/// In `Work`, the command `Rest`, at `now`.
pub fn rest(target_hours: Span, cur_hours: Span, work_start: Timestamp, now: Timestamp) -> (out:
    Result<Outcome, Overflow>)
    ensures
        out is Ok <==> fits_span(worked(cur_hours@, work_start@, now@)),
        out matches Ok(o) ==> o@ == session::rest(target_hours@, cur_hours@, work_start@, now@),
{
    match time_worked(cur_hours, work_start, now) {
        Ok(done) => Ok(
            Outcome {
                state: State::Rest { target_hours, cur_hours: done },
                reply: Reply::WorkDone { done, target: target_hours },
            },
        ),
        Err(e) => Err(e),
    }
}

/// In `Work`, the command `Status`, at `now`.
pub fn work_status(
    target_hours: Span,
    cur_hours: Span,
    work_start: Timestamp,
    now: Timestamp,
) -> (out: Result<Outcome, Overflow>)
    ensures
        out is Ok <==> fits_span(worked(cur_hours@, work_start@, now@)),
        out matches Ok(o) ==> o@ == session::work_status(
            target_hours@,
            cur_hours@,
            work_start@,
            now@,
        ),
{
    match time_worked(cur_hours, work_start, now) {
        Ok(done) => Ok(
            Outcome {
                state: State::Work { target_hours, cur_hours, work_start },
                reply: Reply::Status { done, target: target_hours },
            },
        ),
        Err(e) => Err(e),
    }
}

/// Any message that the state does not take.
pub fn invalid_state(state: State) -> (out: Outcome)
    ensures
        out@ == session::invalid_state(state@),
        out.state == state,
{
    Outcome { state, reply: Reply::Unhandled }
}

impl State {
    /// The state after a message that arrives at `now`, and the answer to it.
    /// `command` is the command that the message is, if it is one, and `text`
    /// is its text, if it has one.
    ///
    /// The result is what the model's `next` gives. It is `Err` only where
    /// the time worked has to be worked out and is beyond what a span can
    /// hold; the state is then to stay as it is.
    pub fn dispatch(self, command: Option<Command>, text: Option<&str>, now: Timestamp) -> (out:
        Result<Outcome, Overflow>)
        ensures
            out is Ok <==> in_reach(self@, command, now@),
            out matches Ok(o) ==> o@ == session::next(self@, command, text_view(text), now@),
    {
        match self {
            State::Start => match command {
                Some(Command::Help) => Ok(help()),
                _ => Ok(invalid_state(self)),
            },
            State::ReceiveTargetHours => Ok(receive_target_hours(text)),
            State::Rest { target_hours, cur_hours } => match command {
                Some(Command::Work) => Ok(work(target_hours, cur_hours, now)),
                Some(Command::Status) => Ok(rest_status(target_hours, cur_hours)),
                _ => Ok(invalid_state(self)),
            },
            State::Work { target_hours, cur_hours, work_start } => match command {
                Some(Command::Rest) => rest(target_hours, cur_hours, work_start, now),
                Some(Command::Status) => work_status(target_hours, cur_hours, work_start, now),
                _ => Ok(invalid_state(self)),
            },
        }
    }
}

} // verus!
