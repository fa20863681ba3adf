//! Whole runs of a control loop: what it asks for, and what it has the
//! output lines do, as a sequence of events comes in.

use crate::command::{settled_states, Command};
use crate::control::{action_commands, next_phase, phase_valid, requested, working_phase};
use crate::control::{Action, Event, Phase, FIXED_REVOLUTIONS};
use crate::direction::{resolve_direction, Direction};
use crate::pins::{acquisition_plan, Variant};
use crate::sequence::{lemma_steps_commands_concat, lemma_steps_settle_on_rows};
use crate::sequence::{rows_fit, steps_commands, Traversal};
use crate::table::{halfstep_rows, lemma_table_shape, Level, LINE_COUNT, ROW_COUNT};
use vstd::prelude::*;

verus! {

/// The phase of a loop that started afresh and has been reported `events`,
/// oldest first.
pub open spec fn phase_after(variant: Variant, events: Seq<Event>) -> Phase
    decreases events.len(),
{
    if events.len() == 0 {
        Phase::Idle { acquired: 0 }
    } else {
        next_phase(variant, phase_after(variant, events.drop_last()), events.last())
    }
}

/// The request that the loop makes once `events` have been reported.
pub open spec fn request_after(variant: Variant, events: Seq<Event>) -> Action {
    requested(variant, phase_after(variant, events))
}

/// Every command that the loop has asked for by the time `events` have been
/// reported: those of its first request, and of the request that followed
/// each event.
pub open spec fn commands_through(variant: Variant, events: Seq<Event>) -> Seq<Command>
    decreases events.len(),
{
    if events.len() == 0 {
        action_commands(request_after(variant, events))
    } else {
        commands_through(variant, events.drop_last()) + action_commands(
            request_after(variant, events),
        )
    }
}

/// Whatever is reported, the loop stays in a phase of its variant. The
/// interactive loop never reaches `Done`, so it never exits successfully; the
/// fixed-count loop never samples the buttons, never pauses and never turns
/// in reverse.
pub proof fn lemma_phase_stays_valid(variant: Variant, events: Seq<Event>)
    ensures
        phase_valid(variant, phase_after(variant, events)),
        variant == Variant::Interactive ==> request_after(variant, events) != (Action::Exit {
            success: true,
        }),
        variant == Variant::FixedCount ==> {
            &&& request_after(variant, events) != Action::Sample
            &&& request_after(variant, events) != Action::Pause
            &&& request_after(variant, events) != Action::Drive(Traversal::Reverse)
        },
    decreases events.len(),
{
    if events.len() > 0 {
        lemma_phase_stays_valid(variant, events.drop_last());
    }
}

/// The events of a startup in which every resource of the plan is acquired.
pub open spec fn granted_startup(variant: Variant) -> Seq<Event> {
    Seq::new(acquisition_plan(variant).len(), |i: int| Event::Acquired)
}

/// While every acquisition succeeds, startup asks for the resources of the
/// plan one by one in plan order and for nothing else, and no command is
/// issued before the last of them is held. With the last one the loop enters
/// its working phase.
pub proof fn lemma_startup_acquires_plan(variant: Variant, seen: int)
    requires
        0 <= seen <= acquisition_plan(variant).len(),
    ensures
        seen < acquisition_plan(variant).len() ==> {
            &&& phase_after(variant, granted_startup(variant).take(seen)) == (Phase::Idle {
                acquired: seen as usize,
            })
            &&& request_after(variant, granted_startup(variant).take(seen)) == Action::Acquire(
                acquisition_plan(variant)[seen],
            )
            &&& commands_through(variant, granted_startup(variant).take(seen)) == Seq::<
                Command,
            >::empty()
        },
        seen == acquisition_plan(variant).len() ==> phase_after(
            variant,
            granted_startup(variant).take(seen),
        ) == working_phase(variant),
    decreases seen,
{
    let events = granted_startup(variant).take(seen);
    if seen > 0 {
        assert(events.drop_last() =~= granted_startup(variant).take(seen - 1));
        lemma_startup_acquires_plan(variant, seen - 1);
    }
}

/// One cycle of the interactive loop. From polling, a sample decides alone
/// what happens next: a pause with no button asserted, one forward traversal
/// for "up", one reverse traversal for "down" or for both. Until that is
/// completed a further sample changes nothing; once it is, the loop polls
/// again, and the cycle has issued the commands of that one request and no
/// others.
pub proof fn lemma_poll_cycle(history: Seq<Event>, up: bool, down: bool)
    requires
        phase_after(Variant::Interactive, history) == Phase::Polling,
    ensures
        ({
            let sampled = history.push(Event::Sampled { up, down });
            let completed = sampled.push(Event::Completed);
            &&& request_after(Variant::Interactive, history) == Action::Sample
            &&& request_after(Variant::Interactive, sampled) == match resolve_direction(up, down) {
                Direction::NoDirection => Action::Pause,
                Direction::Up => Action::Drive(Traversal::Forward),
                Direction::Down => Action::Drive(Traversal::Reverse),
            }
            &&& forall|again_up: bool, again_down: bool|
                phase_after(
                    Variant::Interactive,
                    #[trigger] sampled.push(Event::Sampled { up: again_up, down: again_down }),
                ) == phase_after(Variant::Interactive, sampled)
            &&& phase_after(Variant::Interactive, completed) == Phase::Polling
            &&& commands_through(Variant::Interactive, completed) == commands_through(
                Variant::Interactive,
                history,
            ) + action_commands(request_after(Variant::Interactive, sampled))
        }),
{
    let sampled = history.push(Event::Sampled { up, down });
    let completed = sampled.push(Event::Completed);
    assert(sampled.drop_last() =~= history);
    assert(completed.drop_last() =~= sampled);
    assert forall|again_up: bool, again_down: bool|
        phase_after(
            Variant::Interactive,
            #[trigger] sampled.push(Event::Sampled { up: again_up, down: again_down }),
        ) == phase_after(Variant::Interactive, sampled) by {
        let again = sampled.push(Event::Sampled { up: again_up, down: again_down });
        assert(again.drop_last() =~= sampled);
    }
    assert(commands_through(Variant::Interactive, sampled) == commands_through(
        Variant::Interactive,
        history,
    ) + action_commands(request_after(Variant::Interactive, sampled)));
}

/// The events of a startup in which the first `granted` resources are
/// acquired and the next one is denied, followed by anything at all.
pub open spec fn denied_startup(granted: nat, rest: Seq<Event>) -> Seq<Event> {
    Seq::new(granted, |i: int| Event::Acquired).push(Event::Denied) + rest
}

/// A denied resource ends the run. Up to the denial the loop asks for the
/// resources of its plan in order; from the denial on it asks for nothing
/// but a failing exit, whatever is reported next: no resource after the
/// denied one is asked for, and no command ever reaches an output line.
pub proof fn lemma_denied_acquisition_aborts(
    variant: Variant,
    granted: nat,
    rest: Seq<Event>,
    seen: int,
)
    requires
        granted < acquisition_plan(variant).len(),
        0 <= seen <= denied_startup(granted, rest).len(),
    ensures
        seen <= granted ==> request_after(variant, denied_startup(granted, rest).take(seen))
            == Action::Acquire(acquisition_plan(variant)[seen]),
        seen > granted ==> request_after(variant, denied_startup(granted, rest).take(seen))
            == (Action::Exit { success: false }),
        commands_through(variant, denied_startup(granted, rest).take(seen)) == Seq::<
            Command,
        >::empty(),
    decreases seen,
{
    let events = denied_startup(granted, rest).take(seen);
    if seen > 0 {
        assert(events.drop_last() =~= denied_startup(granted, rest).take(seen - 1));
        lemma_denied_acquisition_aborts(variant, granted, rest, seen - 1);
        lemma_denied_startup_phase(variant, granted, rest, seen - 1);
    }
    lemma_denied_startup_phase(variant, granted, rest, seen);
}

/// The phase during a startup that is denied: `Idle` with one more resource
/// held after each grant, `Failed` from the denial on.
proof fn lemma_denied_startup_phase(variant: Variant, granted: nat, rest: Seq<Event>, seen: int)
    requires
        granted < acquisition_plan(variant).len(),
        0 <= seen <= denied_startup(granted, rest).len(),
    ensures
        phase_after(variant, denied_startup(granted, rest).take(seen)) == if seen <= granted {
            Phase::Idle { acquired: seen as usize }
        } else {
            Phase::Failed
        },
    decreases seen,
{
    let events = denied_startup(granted, rest).take(seen);
    if seen > 0 {
        assert(events.drop_last() =~= denied_startup(granted, rest).take(seen - 1));
        lemma_denied_startup_phase(variant, granted, rest, seen - 1);
    }
}

/// The events of a fixed-count run in which nothing goes wrong: all five
/// resources are acquired, then each of the revolutions is completed.
pub open spec fn fixed_count_events() -> Seq<Event> {
    granted_startup(Variant::FixedCount) + Seq::new(
        FIXED_REVOLUTIONS as nat,
        |i: int| Event::Completed,
    )
}

/// The rows of `revolutions` forward revolutions back to back: row
/// `i mod 8` of the table at step `i`.
pub open spec fn revolution_rows(revolutions: nat) -> Seq<Seq<Level>> {
    Seq::new((ROW_COUNT * revolutions) as nat, |i: int| halfstep_rows()[i % (ROW_COUNT as int)])
}

/// Number of revolutions that the fixed-count loop has asked for once `seen`
/// events of an untroubled run have been reported.
pub open spec fn revolutions_asked(seen: int) -> nat {
    if seen < 5 {
        0
    } else if seen < 5 + FIXED_REVOLUTIONS {
        (seen - 4) as nat
    } else {
        FIXED_REVOLUTIONS as nat
    }
}

/// One more revolution appends the eight rows of the table.
proof fn lemma_revolution_rows_step(revolutions: nat)
    ensures
        revolution_rows(revolutions + 1) == revolution_rows(revolutions) + halfstep_rows(),
{
    lemma_table_shape();
    let longer = revolution_rows(revolutions + 1);
    let joined = revolution_rows(revolutions) + halfstep_rows();
    assert(longer.len() == joined.len()) by (nonlinear_arith)
        requires
            longer.len() == ROW_COUNT * (revolutions + 1),
            joined.len() == ROW_COUNT * revolutions + ROW_COUNT,
    ;
    assert forall|i: int| 0 <= i < longer.len() implies longer[i] == joined[i] by {
        if i >= ROW_COUNT * revolutions {
            let offset = i - ROW_COUNT * revolutions;
            assert(i % 8 == offset) by (nonlinear_arith)
                requires
                    offset == i - 8 * revolutions,
                    0 <= offset < 8,
            ;
        }
    }
}

/// The fixed-count loop step by step, while nothing goes wrong: it acquires
/// its five resources in plan order, then asks for one forward traversal
/// after another, and after the last of them for a successful exit. By then
/// it has asked for exactly the steps of that many revolutions.
pub proof fn lemma_fixed_count_progress(seen: int)
    requires
        0 <= seen <= fixed_count_events().len(),
    ensures
        seen < 5 ==> request_after(Variant::FixedCount, fixed_count_events().take(seen))
            == Action::Acquire(acquisition_plan(Variant::FixedCount)[seen]),
        5 <= seen < 5 + FIXED_REVOLUTIONS ==> request_after(
            Variant::FixedCount,
            fixed_count_events().take(seen),
        ) == Action::Drive(Traversal::Forward),
        seen == 5 + FIXED_REVOLUTIONS ==> request_after(
            Variant::FixedCount,
            fixed_count_events().take(seen),
        ) == (Action::Exit { success: true }),
        commands_through(Variant::FixedCount, fixed_count_events().take(seen)) == steps_commands(
            revolution_rows(revolutions_asked(seen)),
        ),
    decreases seen,
{
    let events = fixed_count_events().take(seen);
    lemma_fixed_count_phase(seen);
    if seen > 0 {
        assert(events.drop_last() =~= fixed_count_events().take(seen - 1));
        lemma_fixed_count_progress(seen - 1);
        if 5 <= seen < 5 + FIXED_REVOLUTIONS {
            let before = revolutions_asked(seen - 1);
            lemma_revolution_rows_step(before);
            lemma_steps_commands_concat(revolution_rows(before), halfstep_rows());
        }
    }
}

/// The phase of the fixed-count loop while nothing goes wrong.
proof fn lemma_fixed_count_phase(seen: int)
    requires
        0 <= seen <= fixed_count_events().len(),
    ensures
        phase_after(Variant::FixedCount, fixed_count_events().take(seen)) == if seen < 5 {
            Phase::Idle { acquired: seen as usize }
        } else if seen < 5 + FIXED_REVOLUTIONS {
            Phase::Running { completed: (seen - 5) as usize }
        } else {
            Phase::Done
        },
    decreases seen,
{
    let events = fixed_count_events().take(seen);
    if seen > 0 {
        assert(events.drop_last() =~= fixed_count_events().take(seen - 1));
        lemma_fixed_count_phase(seen - 1);
    }
}

/// A fixed-count run in which nothing goes wrong applies exactly 4096 steps
/// to the output lines, 512 revolutions of 8, and step `i` sets the four
/// lines to row `i mod 8` of the table. Then the loop exits successfully.
pub proof fn lemma_fixed_count_run(lines: Seq<Level>)
    requires
        lines.len() == LINE_COUNT,
    ensures
        request_after(Variant::FixedCount, fixed_count_events()) == (Action::Exit {
            success: true,
        }),
        ({
            let commands = commands_through(Variant::FixedCount, fixed_count_events());
            let states = settled_states(lines, commands);
            &&& commands == steps_commands(revolution_rows(FIXED_REVOLUTIONS as nat))
            &&& states.len() == 4096
            &&& forall|i: int| 0 <= i < 4096 ==> #[trigger] states[i] == halfstep_rows()[i % 8]
        }),
{
    lemma_table_shape();
    let events = fixed_count_events();
    assert(events.take(events.len() as int) =~= events);
    lemma_fixed_count_progress(events.len() as int);
    let rows = revolution_rows(FIXED_REVOLUTIONS as nat);
    assert(rows_fit(rows, lines.len()));
    lemma_steps_settle_on_rows(lines, rows);
}

} // verus!
