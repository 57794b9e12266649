//! Answers of a session, and how they read.

use vstd::prelude::*;
use vstd::string::*;
use crate::clock::{push_span, span_text};
use crate::command::Command;
use crate::session::Answer;
use crate::span::Span;
use crate::timestamp::{calendar_text, Timestamp};

verus! {

/// The line that tells the time worked against the target.
pub open spec fn status_text(done: int, target: int) -> Seq<char> {
    "Done "@ + span_text(done) + " of "@ + span_text(target)
}

/// The line that tells that work stopped, and the time worked against the target.
pub open spec fn work_done_text(done: int, target: int) -> Seq<char> {
    "Work done. "@ + status_text(done, target)
}

/// The line that tells when work started, from the calendar text of that time.
pub open spec fn started_work_text(at: Seq<char>) -> Seq<char> {
    "Started work at "@ + at
}

/// How an answer reads. `usage` is the list of commands as the user is to see
/// it. An answer that names a point in time has a text only where the
/// calendar reaches that point.
pub open spec fn answer_text(answer: Answer, usage: Seq<char>) -> Option<Seq<char>> {
    match answer {
        Answer::Usage => Some(usage),
        Answer::SetupDone => Some("Setup done."@),
        Answer::BadHours => Some("Send correct hours count."@),
        Answer::StartedWork { at } => match calendar_text(at) {
            Some(text) => Some(started_work_text(text)),
            None => None,
        },
        Answer::Status { done, target } => Some(status_text(done, target)),
        Answer::WorkDone { done, target } => Some(work_done_text(done, target)),
        Answer::Unhandled => Some(
            "Unable to handle the message. Type /help to see the usage."@,
        ),
    }
}

/// The two commands that an answer offers the user as the next step, if it
/// offers any.
pub open spec fn answer_actions(answer: Answer) -> Option<(Command, Command)> {
    match answer {
        Answer::SetupDone => Some((Command::Work, Command::Status)),
        Answer::StartedWork { .. } => Some((Command::Rest, Command::Status)),
        Answer::WorkDone { .. } => Some((Command::Work, Command::Status)),
        _ => None,
    }
}

/// What a session answers to a message. Its view is the `Answer` of the model.
#[derive(Clone, Copy, Debug, PartialEq, Eq, Structural)]
pub enum Reply {
    /// The list of commands.
    Usage,
    /// The target is set.
    SetupDone,
    /// What was sent is not a number of hours.
    BadHours,
    /// Work started at `at`.
    StartedWork { at: Timestamp },
    /// `done` of `target` is worked.
    Status { done: Span, target: Span },
    /// Work stopped with `done` of `target` worked.
    WorkDone { done: Span, target: Span },
    /// The message is not one that the state takes.
    Unhandled,
}

impl View for Reply {
    type V = Answer;

    open spec fn view(&self) -> Answer {
        match *self {
            Reply::Usage => Answer::Usage,
            Reply::SetupDone => Answer::SetupDone,
            Reply::BadHours => Answer::BadHours,
            Reply::StartedWork { at } => Answer::StartedWork { at: at@ },
            Reply::Status { done, target } => Answer::Status { done: done@, target: target@ },
            Reply::WorkDone { done, target } => Answer::WorkDone { done: done@, target: target@ },
            Reply::Unhandled => Answer::Unhandled,
        }
    }
}

/// The line that tells the time worked against the target.
pub fn status_line(done: Span, target: Span) -> (line: String)
    ensures
        line@ == status_text(done@, target@),
{
    let mut line = String::from_str("Done ");
    push_span(&mut line, done);
    line.append(" of ");
    push_span(&mut line, target);
    line
}

/// The line that tells that work stopped, and the time worked against the target.
pub fn work_done_line(done: Span, target: Span) -> (line: String)
    ensures
        line@ == work_done_text(done@, target@),
{
    let mut line = String::from_str("Work done. Done ");
    push_span(&mut line, done);
    line.append(" of ");
    push_span(&mut line, target);
    proof {
        reveal_strlit("Work done. Done ");
        reveal_strlit("Work done. ");
        reveal_strlit("Done ");
        assert("Work done. Done "@ =~= "Work done. "@ + "Done "@);
        assert(line@ =~= work_done_text(done@, target@));
    }
    line
}

/// The line that tells when work started; `at` is the calendar text of that time.
pub fn started_work_line(at: &str) -> (line: String)
    ensures
        line@ == started_work_text(at@),
{
    let mut line = String::from_str("Started work at ");
    line.append(at);
    line
}

impl Reply {
    /// How the answer reads, with `usage` as the list of commands. `None`
    /// where the answer names a point in time that the calendar does not reach.
    pub fn text(&self, usage: &str) -> (text: Option<String>)
        ensures
            match text {
                Some(t) => answer_text(self@, usage@) == Some(t@),
                None => answer_text(self@, usage@) is None,
            },
    {
        match self {
            Reply::Usage => Some(usage.to_owned()),
            Reply::SetupDone => Some(String::from_str("Setup done.")),
            Reply::BadHours => Some(String::from_str("Send correct hours count.")),
            Reply::StartedWork { at } => match at.calendar_string() {
                Some(at_text) => Some(started_work_line(at_text.as_str())),
                None => None,
            },
            Reply::Status { done, target } => Some(status_line(*done, *target)),
            Reply::WorkDone { done, target } => Some(work_done_line(*done, *target)),
            Reply::Unhandled => Some(
                String::from_str("Unable to handle the message. Type /help to see the usage."),
            ),
        }
    }

    /// The two commands that the answer offers the user as the next step, if
    /// it offers any.
    pub fn actions(&self) -> (actions: Option<(Command, Command)>)
        ensures
            actions == answer_actions(self@),
    {
        match self {
            Reply::SetupDone => Some((Command::Work, Command::Status)),
            Reply::StartedWork { .. } => Some((Command::Rest, Command::Status)),
            Reply::WorkDone { .. } => Some((Command::Work, Command::Status)),
            _ => None,
        }
    }
}

} // verus!
