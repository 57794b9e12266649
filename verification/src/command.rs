//! The commands that a user can send.

use vstd::prelude::*;
use vstd::string::*;

verus! {

/// A command of the tracker.
#[derive(Clone, Copy, Debug, PartialEq, Eq, Structural)]
pub enum Command {
    /// Show the list of commands.
    Help,
    /// Start tracking work.
    Work,
    /// Stop tracking work.
    Rest,
    /// Show the time worked so far.
    Status,
    /// Reset the working time. No transition is defined for it: in every
    /// state it is answered like any other command that the state does not
    /// take, and the session stays as it is.
    Reset,
}

impl Command {
    /// The command as a user types it: a slash and its name in lower case.
    pub open spec fn label(self) -> Seq<char> {
        match self {
            Command::Help => "/help"@,
            Command::Work => "/work"@,
            Command::Rest => "/rest"@,
            Command::Status => "/status"@,
            Command::Reset => "/reset"@,
        }
    }

    /// The command as a user types it.
    pub fn slash(self) -> (text: &'static str)
        ensures
            text@ == self.label(),
    {
        match self {
            Command::Help => "/help",
            Command::Work => "/work",
            Command::Rest => "/rest",
            Command::Status => "/status",
            Command::Reset => "/reset",
        }
    }
}

} // verus!
