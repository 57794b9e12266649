//! A work and rest time tracker: a session is told a target number of work
//! hours and is then switched between working and resting, and answers with
//! the time worked so far against the target.
//!
//! The transition rules are a mathematical model in [`session`]; [`state`]
//! holds the executable session and proves that it follows the model.

pub mod calendar;
pub mod clock;
pub mod command;
pub mod decimal;
pub mod laws;
pub mod reply;
pub mod session;
pub mod span;
pub mod state;
pub mod timestamp;
