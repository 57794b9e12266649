use worktime::command::Command;
use worktime::reply::Reply;
use worktime::span::Span;
use worktime::state::{
    help, invalid_state, receive_target_hours, rest, rest_status, work, work_status, Outcome,
    Overflow, State,
};
use worktime::timestamp::Timestamp;

const USAGE: &str = "These commands are supported:\n\n/help — display this text.";

fn at(secs: i64) -> Timestamp {
    Timestamp::from_unix(secs, 0)
}

fn step(state: State, command: Option<Command>, text: &str, now: Timestamp) -> Outcome {
    state.dispatch(command, Some(text), now).unwrap()
}

fn text_of(reply: Reply) -> String {
    reply.text(USAGE).unwrap()
}

#[test]
fn a_session_begins_in_start() {
    assert_eq!(State::default(), State::Start);
}

#[test]
fn help_in_start_lists_the_commands_and_awaits_the_target() {
    let out = step(State::Start, Some(Command::Help), "/help", at(0));
    assert_eq!(out.state, State::ReceiveTargetHours);
    assert_eq!(out.reply, Reply::Usage);
    assert_eq!(text_of(out.reply), USAGE);
    assert_eq!(out.reply.actions(), None);
    assert_eq!(help(), out);
}

#[test]
fn a_full_day_of_messages() {
    let t = 1_700_000_000;

    let out = step(State::Start, Some(Command::Help), "/help", at(t));
    assert_eq!(out.state, State::ReceiveTargetHours);

    let out = step(out.state, None, "8", at(t));
    assert_eq!(out.state, State::Rest { target_hours: Span::hours(8), cur_hours: Span::zero() });
    assert_eq!(text_of(out.reply), "Setup done.");
    assert_eq!(out.reply.actions(), Some((Command::Work, Command::Status)));

    let out = step(out.state, Some(Command::Work), "/work", at(t));
    assert_eq!(
        out.state,
        State::Work { target_hours: Span::hours(8), cur_hours: Span::zero(), work_start: at(t) }
    );
    assert_eq!(out.reply, Reply::StartedWork { at: at(t) });
    assert_eq!(out.reply.actions(), Some((Command::Rest, Command::Status)));
    let working = out.state;

    let out = step(working, Some(Command::Status), "/status", at(t + 5));
    assert_eq!(text_of(out.reply), "Done 00:00:05 of 08:00:00");
    assert_eq!(out.reply.actions(), None);
    assert_eq!(out.state, working);

    let out = step(out.state, Some(Command::Rest), "/rest", at(t + 10));
    assert_eq!(
        out.state,
        State::Rest { target_hours: Span::hours(8), cur_hours: Span::seconds(10) }
    );
    assert_eq!(text_of(out.reply), "Work done. Done 00:00:10 of 08:00:00");
    assert_eq!(out.reply.actions(), Some((Command::Work, Command::Status)));
}

#[test]
fn an_hour_a_minute_and_a_second_of_work() {
    let working =
        State::Work { target_hours: Span::hours(2), cur_hours: Span::zero(), work_start: at(1000) };
    let out = step(working, Some(Command::Rest), "/rest", at(1000 + 3661));
    assert_eq!(
        out.state,
        State::Rest { target_hours: Span::hours(2), cur_hours: Span::seconds(3661) }
    );
    assert_eq!(out.reply, Reply::WorkDone { done: Span::seconds(3661), target: Span::hours(2) });
    assert_eq!(text_of(out.reply), "Work done. Done 01:01:01 of 02:00:00");
}

#[test]
fn rest_while_resting_is_not_handled() {
    let resting = State::Rest { target_hours: Span::hours(8), cur_hours: Span::seconds(90) };
    let out = step(resting, Some(Command::Rest), "/rest", at(50));
    assert_eq!(out.state, resting);
    assert_eq!(out.reply, Reply::Unhandled);
    assert_eq!(
        text_of(out.reply),
        "Unable to handle the message. Type /help to see the usage."
    );
    assert_eq!(out.reply.actions(), None);
    assert_eq!(invalid_state(resting), out);
}

#[test]
fn work_while_working_is_not_handled() {
    let working =
        State::Work { target_hours: Span::hours(1), cur_hours: Span::zero(), work_start: at(7) };
    let out = step(working, Some(Command::Work), "/work", at(50));
    assert_eq!(out, Outcome { state: working, reply: Reply::Unhandled });
}

#[test]
fn start_takes_help_only() {
    for command in [Command::Work, Command::Rest, Command::Status, Command::Reset] {
        let out = step(State::Start, Some(command), command.slash(), at(3));
        assert_eq!(out, Outcome { state: State::Start, reply: Reply::Unhandled });
    }
    let out = step(State::Start, None, "8", at(3));
    assert_eq!(out, Outcome { state: State::Start, reply: Reply::Unhandled });
    let out = State::Start.dispatch(None, None, at(3)).unwrap();
    assert_eq!(out, Outcome { state: State::Start, reply: Reply::Unhandled });
}

#[test]
fn help_is_taken_in_start_only() {
    let resting = State::Rest { target_hours: Span::hours(8), cur_hours: Span::zero() };
    let working =
        State::Work { target_hours: Span::hours(8), cur_hours: Span::zero(), work_start: at(1) };
    for state in [resting, working] {
        let out = step(state, Some(Command::Help), "/help", at(2));
        assert_eq!(out, Outcome { state, reply: Reply::Unhandled });
    }
}

#[test]
fn plain_text_outside_the_setup_is_not_handled() {
    let resting = State::Rest { target_hours: Span::hours(8), cur_hours: Span::zero() };
    let working =
        State::Work { target_hours: Span::hours(8), cur_hours: Span::zero(), work_start: at(1) };
    for state in [State::Start, resting, working] {
        let out = step(state, None, "12", at(2));
        assert_eq!(out, Outcome { state, reply: Reply::Unhandled });
    }
}

#[test]
fn reset_has_no_transition_of_its_own() {
    let resting = State::Rest { target_hours: Span::hours(8), cur_hours: Span::seconds(5) };
    let working =
        State::Work { target_hours: Span::hours(8), cur_hours: Span::zero(), work_start: at(1) };
    for state in [State::Start, resting, working] {
        let out = step(state, Some(Command::Reset), "/reset", at(2));
        assert_eq!(out, Outcome { state, reply: Reply::Unhandled });
    }
    let out = step(State::ReceiveTargetHours, Some(Command::Reset), "/reset", at(2));
    assert_eq!(out, Outcome { state: State::ReceiveTargetHours, reply: Reply::BadHours });
}

#[test]
fn every_hour_count_sets_the_target() {
    for hours in [0i64, 1, 8, 24, 100, 2_562_047_788_015, 2_562_047_788_016, i64::MAX] {
        let text = hours.to_string();
        let out = step(State::ReceiveTargetHours, None, &text, at(9));
        assert_eq!(
            out,
            Outcome {
                state: State::Rest {
                    target_hours: Span { nanos: hours as i128 * 3_600_000_000_000 },
                    cur_hours: Span { nanos: 0 },
                },
                reply: Reply::SetupDone,
            }
        );
        assert_eq!(receive_target_hours(Some(&text)), out);
    }
}

#[test]
fn a_signed_hour_count_sets_the_target() {
    let out = step(State::ReceiveTargetHours, None, "+8", at(9));
    assert_eq!(out.state, State::Rest { target_hours: Span::hours(8), cur_hours: Span::zero() });
    let out = step(State::ReceiveTargetHours, None, "-3", at(9));
    assert_eq!(out.state, State::Rest { target_hours: Span::hours(-3), cur_hours: Span::zero() });
    assert_eq!(out.reply, Reply::SetupDone);
    let out = step(out.state, Some(Command::Status), "/status", at(9));
    assert_eq!(text_of(out.reply), "Done 00:00:00 of -3:00:00");
}

#[test]
fn what_is_no_hour_count_is_asked_again() {
    let texts = [
        "", " ", "eight", "8h", "8.5", " 8", "8 ", "+", "-", "--8", "0x10", "1e3", "1_000",
        "/help", "/work", "/status", "٨", "９", "9223372036854775808", "-9223372036854775809",
    ];
    for text in texts {
        let out = step(State::ReceiveTargetHours, None, text, at(9));
        assert_eq!(out, Outcome { state: State::ReceiveTargetHours, reply: Reply::BadHours });
        assert_eq!(text_of(out.reply), "Send correct hours count.");
        assert_eq!(out.reply.actions(), None);
    }
}

#[test]
fn a_command_during_the_setup_is_read_as_text() {
    for command in [Command::Help, Command::Work, Command::Rest, Command::Status, Command::Reset] {
        let out = step(State::ReceiveTargetHours, Some(command), command.slash(), at(9));
        assert_eq!(out, Outcome { state: State::ReceiveTargetHours, reply: Reply::BadHours });
    }
}

#[test]
fn a_message_without_text_is_asked_again() {
    let out = State::ReceiveTargetHours.dispatch(None, None, at(9)).unwrap();
    assert_eq!(out, Outcome { state: State::ReceiveTargetHours, reply: Reply::BadHours });
    assert_eq!(receive_target_hours(None), out);
}

#[test]
fn status_never_changes_the_session() {
    let resting = State::Rest { target_hours: Span::hours(8), cur_hours: Span::seconds(125) };
    let mut state = resting;
    for now in [0, 10, 10, 5000] {
        let out = step(state, Some(Command::Status), "/status", at(now));
        assert_eq!(text_of(out.reply), "Done 00:02:05 of 08:00:00");
        state = out.state;
    }
    assert_eq!(state, resting);
    assert_eq!(
        rest_status(Span::hours(8), Span::seconds(125)),
        Outcome {
            state: resting,
            reply: Reply::Status { done: Span::seconds(125), target: Span::hours(8) },
        }
    );

    let working = State::Work {
        target_hours: Span::hours(8),
        cur_hours: Span::seconds(125),
        work_start: at(1000),
    };
    let mut state = working;
    let mut shown = Vec::new();
    for now in [1000, 1001, 1001, 1060, 4600] {
        let out = step(state, Some(Command::Status), "/status", at(now));
        shown.push(text_of(out.reply));
        state = out.state;
    }
    assert_eq!(state, working);
    assert_eq!(
        shown,
        vec![
            "Done 00:02:05 of 08:00:00",
            "Done 00:02:06 of 08:00:00",
            "Done 00:02:06 of 08:00:00",
            "Done 00:03:05 of 08:00:00",
            "Done 01:02:05 of 08:00:00",
        ]
    );
    let out = step(state, Some(Command::Rest), "/rest", at(4600));
    assert_eq!(
        out.state,
        State::Rest { target_hours: Span::hours(8), cur_hours: Span::seconds(125 + 3600) }
    );
}

#[test]
fn rest_work_rest_in_one_moment_adds_nothing() {
    let working = State::Work {
        target_hours: Span::hours(8),
        cur_hours: Span::seconds(40),
        work_start: at(100),
    };
    let rested = step(working, Some(Command::Rest), "/rest", at(160)).state;
    assert_eq!(
        rested,
        State::Rest { target_hours: Span::hours(8), cur_hours: Span::seconds(100) }
    );
    let resumed = step(rested, Some(Command::Work), "/work", at(160)).state;
    let rested_again = step(resumed, Some(Command::Rest), "/rest", at(160)).state;
    assert_eq!(rested_again, rested);

    let resumed = step(rested, Some(Command::Work), "/work", at(200)).state;
    let later = Timestamp::from_unix(200, 250_000_000);
    let rested_again = step(resumed, Some(Command::Rest), "/rest", later).state;
    assert_eq!(
        rested_again,
        State::Rest {
            target_hours: Span::hours(8),
            cur_hours: Span { nanos: 100_250_000_000 },
        }
    );
}

#[test]
fn parts_of_a_second_add_up() {
    let mut state = State::Rest { target_hours: Span::hours(1), cur_hours: Span::zero() };
    let turns = [
        ((50, 900_000_000), (51, 300_000_000)),
        ((60, 0), (60, 400_000_000)),
        ((70, 800_000_000), (71, 200_000_000)),
    ];
    for ((s1, n1), (s2, n2)) in turns {
        let start = Timestamp::from_unix(s1, n1);
        let end = Timestamp::from_unix(s2, n2);
        state = step(state, Some(Command::Work), "/work", start).state;
        let out = step(state, Some(Command::Status), "/status", end);
        assert_eq!(out.state, state);
        state = step(state, Some(Command::Rest), "/rest", end).state;
    }
    assert_eq!(
        state,
        State::Rest { target_hours: Span::hours(1), cur_hours: Span { nanos: 1_200_000_000 } }
    );
    let out = step(state, Some(Command::Status), "/status", at(80));
    assert_eq!(text_of(out.reply), "Done 00:00:01 of 01:00:00");
}

#[test]
fn a_clock_that_went_back_takes_time_off() {
    let working = State::Work {
        target_hours: Span::hours(8),
        cur_hours: Span::seconds(10),
        work_start: at(100),
    };
    let out = step(working, Some(Command::Status), "/status", at(30));
    assert_eq!(out.reply, Reply::Status { done: Span::seconds(-60), target: Span::hours(8) });
    assert_eq!(text_of(out.reply), "Done 00:-1:00 of 08:00:00");
    let out = step(working, Some(Command::Rest), "/rest", at(95));
    assert_eq!(
        out.state,
        State::Rest { target_hours: Span::hours(8), cur_hours: Span::seconds(5) }
    );
}

#[test]
fn time_worked_beyond_a_span_is_an_overflow() {
    let full = Span { nanos: i128::MAX };
    let working = State::Work { target_hours: Span::hours(8), cur_hours: full, work_start: at(0) };
    let one_nano_later = Timestamp::from_unix(0, 1);
    assert_eq!(working.dispatch(Some(Command::Rest), Some("/rest"), one_nano_later), Err(Overflow));
    assert_eq!(
        working.dispatch(Some(Command::Status), Some("/status"), one_nano_later),
        Err(Overflow)
    );
    assert_eq!(rest(Span::hours(8), full, at(0), one_nano_later), Err(Overflow));
    assert_eq!(work_status(Span::hours(8), full, at(0), one_nano_later), Err(Overflow));

    let out = working.dispatch(Some(Command::Rest), Some("/rest"), at(0)).unwrap();
    assert_eq!(out.state, State::Rest { target_hours: Span::hours(8), cur_hours: full });
    let out = working.dispatch(Some(Command::Work), Some("/work"), one_nano_later).unwrap();
    assert_eq!(out, Outcome { state: working, reply: Reply::Unhandled });

    let empty = Span { nanos: i128::MIN };
    let working = State::Work { target_hours: Span::hours(8), cur_hours: empty, work_start: at(1) };
    assert_eq!(working.dispatch(Some(Command::Rest), None, at(0)), Err(Overflow));
    let out = working.dispatch(Some(Command::Rest), None, at(1)).unwrap();
    assert_eq!(out.state, State::Rest { target_hours: Span::hours(8), cur_hours: empty });
}

#[test]
fn time_worked_is_found_wherever_it_fits() {
    let first = Timestamp { nanos: i128::MIN };
    let last = Timestamp { nanos: i128::MAX };
    let target = Span::hours(8);

    let working = State::Work { target_hours: target, cur_hours: Span { nanos: -5 }, work_start: first };
    let out = working.dispatch(Some(Command::Rest), None, Timestamp { nanos: -3 }).unwrap();
    assert_eq!(out.state, State::Rest { target_hours: target, cur_hours: Span { nanos: i128::MAX - 7 } });
    assert_eq!(working.dispatch(Some(Command::Rest), None, Timestamp { nanos: 5 }), Err(Overflow));

    let working = State::Work { target_hours: target, cur_hours: Span { nanos: i128::MIN }, work_start: first };
    let out = working.dispatch(Some(Command::Status), None, last).unwrap();
    assert_eq!(out.reply, Reply::Status { done: Span { nanos: i128::MAX }, target });

    let working = State::Work { target_hours: target, cur_hours: Span { nanos: i128::MAX }, work_start: last };
    let out = working.dispatch(Some(Command::Rest), None, first).unwrap();
    assert_eq!(out.state, State::Rest { target_hours: target, cur_hours: Span { nanos: i128::MIN } });

    let working = State::Work { target_hours: target, cur_hours: Span { nanos: -1 }, work_start: last };
    assert_eq!(working.dispatch(Some(Command::Rest), None, first), Err(Overflow));
    let working = State::Work { target_hours: target, cur_hours: Span { nanos: 0 }, work_start: first };
    assert_eq!(working.dispatch(Some(Command::Rest), None, last), Err(Overflow));
}

#[test]
fn the_handlers_agree_with_dispatch() {
    let target = Span::hours(4);
    let done = Span::seconds(77);
    let resting = State::Rest { target_hours: target, cur_hours: done };
    let working = State::Work { target_hours: target, cur_hours: done, work_start: at(500) };
    assert_eq!(
        work(target, done, at(500)),
        Outcome { state: working, reply: Reply::StartedWork { at: at(500) } }
    );
    assert_eq!(resting.dispatch(Some(Command::Work), None, at(500)), Ok(work(target, done, at(500))));
    assert_eq!(resting.dispatch(Some(Command::Status), None, at(500)), Ok(rest_status(target, done)));
    assert_eq!(
        working.dispatch(Some(Command::Rest), None, at(900)),
        rest(target, done, at(500), at(900))
    );
    assert_eq!(
        working.dispatch(Some(Command::Status), None, at(900)),
        work_status(target, done, at(500), at(900))
    );
    assert_eq!(
        work_status(target, done, at(500), at(900)),
        Ok(Outcome {
            state: working,
            reply: Reply::Status { done: Span::seconds(477), target },
        })
    );
}
