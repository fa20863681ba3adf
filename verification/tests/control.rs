use halfstep::command::{replay, Command};
use halfstep::control::{emit_commands, Action, ControlLoop, Event, Phase, FIXED_REVOLUTIONS};
use halfstep::pins::{acquisition_count, resource_at, Button, Resource, Variant};
use halfstep::sequence::{drive_sequence, Traversal};
use halfstep::table::{Level, HALFSTEP_SEQ};

const H: Level = Level::High;
const L: Level = Level::Low;

/// What a scripted run saw: every request in order, and every command that
/// the requests stood for.
struct Outcome {
    requests: Vec<Action>,
    commands: Vec<Command>,
    exit: Option<bool>,
}

/// Runs a loop the way its caller would, with hardware replaced by a script:
/// acquisition number `deny_at` is denied, and the inputs read as `samples`
/// say, one pair per poll. The run ends at an exit request, when the samples
/// run out, or after `limit` requests.
fn run(
    variant: Variant,
    deny_at: Option<usize>,
    samples: &[(bool, bool)],
    limit: usize,
) -> Outcome {
    let mut control = ControlLoop::new(variant);
    let mut outcome = Outcome { requests: Vec::new(), commands: Vec::new(), exit: None };
    let mut acquisitions = 0;
    let mut polls = 0;
    while outcome.requests.len() < limit {
        let action = control.request();
        outcome.requests.push(action);
        let event = match action {
            Action::Acquire(_) => {
                let denied = deny_at == Some(acquisitions);
                acquisitions += 1;
                if denied {
                    Event::Denied
                } else {
                    Event::Acquired
                }
            }
            Action::Sample => {
                if polls == samples.len() {
                    break;
                }
                let (up, down) = samples[polls];
                polls += 1;
                Event::Sampled { up, down }
            }
            Action::Drive(_) | Action::Pause => {
                emit_commands(&mut outcome.commands, action);
                Event::Completed
            }
            Action::Exit { success } => {
                outcome.exit = Some(success);
                break;
            }
        };
        control.advance(event);
    }
    outcome
}

fn traversal(direction: Traversal) -> Vec<Command> {
    let mut sink = Vec::new();
    drive_sequence(&mut sink, direction);
    sink
}

#[test]
fn a_new_loop_has_acquired_nothing() {
    for variant in [Variant::FixedCount, Variant::Interactive] {
        let control = ControlLoop::new(variant);
        assert_eq!(control.variant(), variant);
        assert_eq!(control.phase(), Phase::Idle { acquired: 0 });
        assert_eq!(control.request(), Action::Acquire(Resource::Gpio));
    }
}

#[test]
fn asking_again_without_an_event_repeats_the_request() {
    let mut control = ControlLoop::new(Variant::Interactive);
    control.advance(Event::Acquired);
    let first = control.request();
    let second = control.request();
    assert_eq!(first, second);
    assert_eq!(first, Action::Acquire(Resource::OutputLine { line: 0, bcm_pin: 4 }));
    assert_eq!(control.phase(), Phase::Idle { acquired: 1 });
}

#[test]
fn startup_asks_for_the_plan_in_order() {
    for variant in [Variant::FixedCount, Variant::Interactive] {
        let mut control = ControlLoop::new(variant);
        for index in 0..acquisition_count(variant) {
            assert_eq!(control.phase(), Phase::Idle { acquired: index });
            let expected = resource_at(variant, index).unwrap();
            assert_eq!(control.request(), Action::Acquire(expected));
            control.advance(Event::Acquired);
        }
        let working = match variant {
            Variant::FixedCount => Phase::Running { completed: 0 },
            Variant::Interactive => Phase::Polling,
        };
        assert_eq!(control.phase(), working);
    }
}

#[test]
fn fixed_count_run_makes_exactly_4096_steps_then_exits_successfully() {
    assert_eq!(FIXED_REVOLUTIONS, 512);
    let outcome = run(Variant::FixedCount, None, &[], usize::MAX);
    assert_eq!(outcome.exit, Some(true));
    assert_eq!(outcome.requests.len(), 5 + 512 + 1);
    for request in &outcome.requests[5..517] {
        assert_eq!(*request, Action::Drive(Traversal::Forward));
    }
    assert_eq!(outcome.requests[517], Action::Exit { success: true });

    assert_eq!(outcome.commands.len(), 4096 * 5);
    let mut lines = [L, L, L, L];
    let states = replay(&mut lines, &outcome.commands);
    assert_eq!(states.len(), 4096);
    for (i, state) in states.iter().enumerate() {
        assert_eq!(*state, HALFSTEP_SEQ[i % 8], "step {}", i);
    }
    assert_eq!(lines, [H, L, L, H]);
}

#[test]
fn every_step_of_the_fixed_count_run_writes_each_line_once_in_index_order() {
    let outcome = run(Variant::FixedCount, None, &[], usize::MAX);
    for (i, step) in outcome.commands.chunks(5).enumerate() {
        let row = HALFSTEP_SEQ[i % 8];
        for line in 0..4 {
            assert_eq!(step[line], Command::SetLine { line, level: row[line] });
        }
        assert_eq!(step[4], Command::Settle { millis: 1 });
    }
}

#[test]
fn fixed_count_loop_stays_done() {
    let mut control = ControlLoop::new(Variant::FixedCount);
    for _ in 0..5 {
        control.advance(Event::Acquired);
    }
    for completed in 0..512 {
        assert_eq!(control.phase(), Phase::Running { completed });
        control.advance(Event::Completed);
    }
    assert_eq!(control.phase(), Phase::Done);
    for event in [
        Event::Completed,
        Event::Acquired,
        Event::Denied,
        Event::Sampled { up: true, down: false },
    ] {
        control.advance(event);
        assert_eq!(control.phase(), Phase::Done);
        assert_eq!(control.request(), Action::Exit { success: true });
    }
}

#[test]
fn held_up_button_gives_one_forward_traversal_then_idle_polling() {
    let samples = [(true, false), (false, false), (false, false)];
    let outcome = run(Variant::Interactive, None, &samples, usize::MAX);
    assert_eq!(outcome.exit, None);
    assert_eq!(
        outcome.requests[7..],
        [
            Action::Sample,
            Action::Drive(Traversal::Forward),
            Action::Sample,
            Action::Pause,
            Action::Sample,
            Action::Pause,
            Action::Sample,
        ]
    );
    let mut expected = traversal(Traversal::Forward);
    expected.push(Command::Settle { millis: 1 });
    expected.push(Command::Settle { millis: 1 });
    assert_eq!(outcome.commands, expected);

    let mut lines = [L, L, L, L];
    let states = replay(&mut lines, &outcome.commands[..40]);
    assert_eq!(states, HALFSTEP_SEQ.to_vec());
}

#[test]
fn held_down_button_gives_reverse_traversals() {
    let samples = [(false, true), (false, true)];
    let outcome = run(Variant::Interactive, None, &samples, usize::MAX);
    let mut expected = traversal(Traversal::Reverse);
    expected.extend(traversal(Traversal::Reverse));
    assert_eq!(outcome.commands, expected);
    assert_eq!(
        outcome.requests[7..],
        [
            Action::Sample,
            Action::Drive(Traversal::Reverse),
            Action::Sample,
            Action::Drive(Traversal::Reverse),
            Action::Sample,
        ]
    );
}

#[test]
fn both_buttons_at_once_turn_in_reverse() {
    let outcome = run(Variant::Interactive, None, &[(true, true)], usize::MAX);
    assert_eq!(outcome.requests[8], Action::Drive(Traversal::Reverse));
    assert_eq!(outcome.commands, traversal(Traversal::Reverse));
}

#[test]
fn no_button_pauses_for_one_millisecond_and_polls_again() {
    let outcome = run(Variant::Interactive, None, &[(false, false)], usize::MAX);
    assert_eq!(outcome.requests[7..], [Action::Sample, Action::Pause, Action::Sample]);
    assert_eq!(outcome.commands, vec![Command::Settle { millis: 1 }]);
}

#[test]
fn buttons_are_not_looked_at_during_a_traversal() {
    let mut control = ControlLoop::new(Variant::Interactive);
    for _ in 0..7 {
        control.advance(Event::Acquired);
    }
    control.advance(Event::Sampled { up: true, down: false });
    assert_eq!(control.phase(), Phase::Driving(Traversal::Forward));
    control.advance(Event::Sampled { up: false, down: true });
    assert_eq!(control.phase(), Phase::Driving(Traversal::Forward));
    assert_eq!(control.request(), Action::Drive(Traversal::Forward));
    control.advance(Event::Sampled { up: false, down: false });
    assert_eq!(control.phase(), Phase::Driving(Traversal::Forward));
    control.advance(Event::Completed);
    assert_eq!(control.phase(), Phase::Polling);
    assert_eq!(control.request(), Action::Sample);
}

#[test]
fn interactive_loop_never_exits_while_startup_succeeds() {
    let samples: Vec<(bool, bool)> =
        (0..200).map(|i| (i % 3 == 0, i % 5 == 0)).collect();
    let outcome = run(Variant::Interactive, None, &samples, usize::MAX);
    assert_eq!(outcome.exit, None);
    for request in &outcome.requests {
        assert!(!matches!(request, Action::Exit { .. }));
    }
}

#[test]
fn events_that_answer_nothing_are_ignored() {
    let mut control = ControlLoop::new(Variant::Interactive);
    control.advance(Event::Completed);
    control.advance(Event::Sampled { up: true, down: true });
    assert_eq!(control.phase(), Phase::Idle { acquired: 0 });
    for _ in 0..7 {
        control.advance(Event::Acquired);
    }
    assert_eq!(control.phase(), Phase::Polling);
    control.advance(Event::Acquired);
    control.advance(Event::Denied);
    control.advance(Event::Completed);
    assert_eq!(control.phase(), Phase::Polling);
    control.advance(Event::Sampled { up: false, down: false });
    assert_eq!(control.phase(), Phase::Pausing);
    control.advance(Event::Sampled { up: true, down: false });
    control.advance(Event::Denied);
    assert_eq!(control.phase(), Phase::Pausing);
}

#[test]
fn a_failed_output_line_bind_writes_nothing_and_reports_failure() {
    for variant in [Variant::FixedCount, Variant::Interactive] {
        for failing in 1..5 {
            let samples = [(true, false), (false, true)];
            let outcome = run(variant, Some(failing), &samples, usize::MAX);
            assert_eq!(outcome.exit, Some(false));
            assert!(outcome.commands.is_empty());
            assert_eq!(outcome.requests.len(), failing + 2);
            for index in 0..=failing {
                let expected = resource_at(variant, index).unwrap();
                assert_eq!(outcome.requests[index], Action::Acquire(expected));
            }
            assert_eq!(outcome.requests[failing + 1], Action::Exit { success: false });
        }
    }
}

#[test]
fn a_denied_peripheral_binds_no_line_at_all() {
    let outcome = run(Variant::Interactive, Some(0), &[(true, false)], usize::MAX);
    assert_eq!(
        outcome.requests,
        vec![Action::Acquire(Resource::Gpio), Action::Exit { success: false }]
    );
    assert!(outcome.commands.is_empty());
    assert_eq!(outcome.exit, Some(false));
}

#[test]
fn a_failed_input_line_bind_reports_failure_before_any_poll() {
    for failing in 5..7 {
        let outcome = run(Variant::Interactive, Some(failing), &[(true, false)], usize::MAX);
        assert_eq!(outcome.exit, Some(false));
        assert!(outcome.commands.is_empty());
        assert_eq!(outcome.requests.len(), failing + 2);
        assert!(!outcome.requests.contains(&Action::Sample));
    }
    let up = run(Variant::Interactive, Some(5), &[], usize::MAX);
    assert_eq!(
        up.requests[5],
        Action::Acquire(Resource::InputLine { button: Button::Up, bcm_pin: 23 })
    );
    assert!(!up
        .requests
        .contains(&Action::Acquire(Resource::InputLine { button: Button::Down, bcm_pin: 24 })));
}

#[test]
fn a_failed_loop_stays_failed() {
    let mut control = ControlLoop::new(Variant::FixedCount);
    control.advance(Event::Acquired);
    control.advance(Event::Acquired);
    control.advance(Event::Denied);
    assert_eq!(control.phase(), Phase::Failed);
    for event in [
        Event::Acquired,
        Event::Completed,
        Event::Denied,
        Event::Sampled { up: false, down: true },
    ] {
        control.advance(event);
        assert_eq!(control.phase(), Phase::Failed);
        assert_eq!(control.request(), Action::Exit { success: false });
    }
}

#[test]
fn only_drive_and_pause_stand_for_commands() {
    let mut sink = vec![Command::Settle { millis: 3 }];
    emit_commands(&mut sink, Action::Sample);
    emit_commands(&mut sink, Action::Acquire(Resource::Gpio));
    emit_commands(&mut sink, Action::Exit { success: true });
    emit_commands(&mut sink, Action::Exit { success: false });
    assert_eq!(sink, vec![Command::Settle { millis: 3 }]);
    emit_commands(&mut sink, Action::Pause);
    assert_eq!(sink, vec![Command::Settle { millis: 3 }, Command::Settle { millis: 1 }]);
    emit_commands(&mut sink, Action::Drive(Traversal::Reverse));
    assert_eq!(sink.len(), 42);
    assert_eq!(sink[2..], traversal(Traversal::Reverse)[..]);
}
