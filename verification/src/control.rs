//! The control loop as a state machine. The loop decides; its caller acts:
//! the caller carries out the request of the current state, reports what
//! came of it as an event, and asks again.

use crate::command::{Command, SETTLE_MILLIS};
use crate::direction::{resolve_direction, sample_direction, Direction};
use crate::pins::{acquisition_count, acquisition_plan, resource_at, Resource, Variant};
use crate::sequence::{drive_sequence, traversal_commands, Traversal};
use vstd::prelude::*;

verus! {

/// Number of forward revolutions that the fixed-count loop makes.
pub const FIXED_REVOLUTIONS: usize = 512;

/// Where a control loop stands.
#[derive(Clone, Copy, Debug, PartialEq, Eq, Structural)]
pub enum Phase {
    /// Startup: the first `acquired` resources of the acquisition plan are
    /// held, the next one is being asked for.
    Idle { acquired: usize },
    /// Interactive loop: waiting for a sample of the two buttons.
    Polling,
    /// Interactive loop: no button was asserted; the throttling pause before
    /// the next sample is under way.
    Pausing,
    /// Interactive loop: a traversal is under way. The buttons are not looked
    /// at until it has finished.
    Driving(Traversal),
    /// Fixed-count loop: `completed` revolutions are done, the next one is
    /// under way.
    Running { completed: usize },
    /// Fixed-count loop: all revolutions are done.
    Done,
    /// Startup failed: a resource was denied.
    Failed,
}

/// What a control loop asks of its caller.
#[derive(Clone, Copy, Debug, PartialEq, Eq, Structural)]
pub enum Action {
    /// Acquire the resource; answer `Acquired` or `Denied`.
    Acquire(Resource),
    /// Read the "up" input, then the "down" input; answer `Sampled`.
    Sample,
    /// Carry out the commands of one traversal; answer `Completed`.
    Drive(Traversal),
    /// Carry out the throttling pause; answer `Completed`.
    Pause,
    /// Leave the loop and end the process, successfully or not.
    Exit { success: bool },
}

/// What the caller reports back.
#[derive(Clone, Copy, Debug, PartialEq, Eq, Structural)]
pub enum Event {
    /// The requested resource is now held.
    Acquired,
    /// The requested resource could not be had.
    Denied,
    /// The inputs were read: whether "up" and whether "down" is asserted.
    Sampled { up: bool, down: bool },
    /// The requested commands have been carried out.
    Completed,
}

/// The state of a control loop as contracts see it.
pub struct LoopState {
    pub variant: Variant,
    pub phase: Phase,
}

/// The phases that a loop of the given variant can be in.
pub open spec fn phase_valid(variant: Variant, phase: Phase) -> bool {
    match phase {
        Phase::Idle { acquired } => acquired < acquisition_plan(variant).len(),
        Phase::Polling | Phase::Pausing | Phase::Driving(_) => variant == Variant::Interactive,
        Phase::Running { completed } => variant == Variant::FixedCount && completed
            < FIXED_REVOLUTIONS,
        Phase::Done => variant == Variant::FixedCount,
        Phase::Failed => true,
    }
}

/// The phase in which a loop starts its work once everything is acquired.
pub open spec fn working_phase(variant: Variant) -> Phase {
    match variant {
        Variant::FixedCount => Phase::Running { completed: 0 },
        Variant::Interactive => Phase::Polling,
    }
}

/// The traversal that a rotation intent calls for, if any: forward for `Up`,
/// reverse for `Down`.
pub open spec fn traversal_for(direction: Direction) -> Option<Traversal> {
    match direction {
        Direction::NoDirection => None,
        Direction::Up => Some(Traversal::Forward),
        Direction::Down => Some(Traversal::Reverse),
    }
}

/// The transition relation. An event that does not answer the request of the
/// current phase leaves the phase as it is.
///
/// - Startup: each `Acquired` moves on to the next resource of the plan, the
///   last one to the working phase; `Denied` ends in `Failed` at once.
/// - Interactive: a sample with no button asserted leads to a pause, one with
///   a button to a traversal in its direction; when either is completed the
///   loop polls again.
/// - Fixed count: each completed revolution starts the next, the last one
///   ends in `Done`.
/// - `Done` and `Failed` are final.
pub open spec fn next_phase(variant: Variant, phase: Phase, event: Event) -> Phase {
    match (phase, event) {
        (Phase::Idle { acquired }, Event::Acquired) => if acquired + 1 < acquisition_plan(
            variant,
        ).len() {
            Phase::Idle { acquired: (acquired + 1) as usize }
        } else {
            working_phase(variant)
        },
        (Phase::Idle { .. }, Event::Denied) => Phase::Failed,
        (Phase::Polling, Event::Sampled { up, down }) => match traversal_for(
            resolve_direction(up, down),
        ) {
            None => Phase::Pausing,
            Some(traversal) => Phase::Driving(traversal),
        },
        (Phase::Pausing, Event::Completed) => Phase::Polling,
        (Phase::Driving(_), Event::Completed) => Phase::Polling,
        (Phase::Running { completed }, Event::Completed) => if completed + 1 < FIXED_REVOLUTIONS {
            Phase::Running { completed: (completed + 1) as usize }
        } else {
            Phase::Done
        },
        _ => phase,
    }
}

/// The request that a loop makes in a given phase.
pub open spec fn requested(variant: Variant, phase: Phase) -> Action {
    match phase {
        Phase::Idle { acquired } => Action::Acquire(acquisition_plan(variant)[acquired as int]),
        Phase::Polling => Action::Sample,
        Phase::Pausing => Action::Pause,
        Phase::Driving(traversal) => Action::Drive(traversal),
        Phase::Running { .. } => Action::Drive(Traversal::Forward),
        Phase::Done => Action::Exit { success: true },
        Phase::Failed => Action::Exit { success: false },
    }
}

/// The commands that carrying out a request consists of: the eight steps of
/// a traversal, the settling delay alone for a pause, nothing otherwise.
pub open spec fn action_commands(action: Action) -> Seq<Command> {
    match action {
        Action::Drive(traversal) => traversal_commands(traversal),
        Action::Pause => seq![Command::Settle { millis: SETTLE_MILLIS }],
        _ => Seq::empty(),
    }
}

/// Appends the commands of `action` to `sink`.
pub fn emit_commands(sink: &mut Vec<Command>, action: Action)
    ensures
        final(sink)@ == old(sink)@ + action_commands(action),
{
    match action {
        Action::Drive(traversal) => {
            drive_sequence(sink, traversal);
        },
        Action::Pause => {
            sink.push(Command::Settle { millis: SETTLE_MILLIS });
        },
        Action::Acquire(_) | Action::Sample | Action::Exit { .. } => {},
    }
}

/// A control loop: its variant and the phase it is in.
#[derive(Clone, Copy, Debug)]
pub struct ControlLoop {
    variant: Variant,
    phase: Phase,
}

impl View for ControlLoop {
    type V = LoopState;

    closed spec fn view(&self) -> LoopState {
        LoopState { variant: self.variant, phase: self.phase }
    }
}

impl ControlLoop {
    #[verifier::type_invariant]
    spec fn well_formed(self) -> bool {
        phase_valid(self.variant, self.phase)
    }

    /// A loop of the given variant at the very start: nothing is acquired
    /// yet.
    pub fn new(variant: Variant) -> (control: ControlLoop)
        ensures
            control@ == (LoopState { variant, phase: Phase::Idle { acquired: 0 } }),
    {
        ControlLoop { variant, phase: Phase::Idle { acquired: 0 } }
    }

    /// Which of the two loops this is.
    pub fn variant(&self) -> (variant: Variant)
        ensures
            variant == self@.variant,
    {
        self.variant
    }

    /// The phase the loop is in; it is always one that its variant allows.
    pub fn phase(&self) -> (phase: Phase)
        ensures
            phase == self@.phase,
            phase_valid(self@.variant, phase),
    {
        proof {
            use_type_invariant(self);
        }
        self.phase
    }

    /// What the loop asks of its caller now. Asking changes nothing: until
    /// an event is reported the request stays the same.
    pub fn request(&self) -> (action: Action)
        ensures
            action == requested(self@.variant, self@.phase),
    {
        proof {
            use_type_invariant(self);
        }
        match self.phase {
            Phase::Idle { acquired } => {
                match resource_at(self.variant, acquired) {
                    Some(resource) => Action::Acquire(resource),
                    None => Action::Exit { success: false },
                }
            },
            Phase::Polling => Action::Sample,
            Phase::Pausing => Action::Pause,
            Phase::Driving(traversal) => Action::Drive(traversal),
            Phase::Running { .. } => Action::Drive(Traversal::Forward),
            Phase::Done => Action::Exit { success: true },
            Phase::Failed => Action::Exit { success: false },
        }
    }

    /// Takes in what came of the last request and moves to the next phase.
    pub fn advance(&mut self, event: Event)
        ensures
            final(self)@.variant == old(self)@.variant,
            final(self)@.phase == next_phase(old(self)@.variant, old(self)@.phase, event),
    {
        proof {
            use_type_invariant(&*self);
        }
        let next = match (self.phase, event) {
            (Phase::Idle { acquired }, Event::Acquired) => {
                if acquired + 1 < acquisition_count(self.variant) {
                    Phase::Idle { acquired: acquired + 1 }
                } else {
                    match self.variant {
                        Variant::FixedCount => Phase::Running { completed: 0 },
                        Variant::Interactive => Phase::Polling,
                    }
                }
            },
            (Phase::Idle { .. }, Event::Denied) => Phase::Failed,
            (Phase::Polling, Event::Sampled { up, down }) => {
                match sample_direction(up, down) {
                    Direction::NoDirection => Phase::Pausing,
                    Direction::Up => Phase::Driving(Traversal::Forward),
                    Direction::Down => Phase::Driving(Traversal::Reverse),
                }
            },
            (Phase::Pausing, Event::Completed) => Phase::Polling,
            (Phase::Driving(_), Event::Completed) => Phase::Polling,
            (Phase::Running { completed }, Event::Completed) => {
                if completed + 1 < FIXED_REVOLUTIONS {
                    Phase::Running { completed: completed + 1 }
                } else {
                    Phase::Done
                }
            },
            (phase, _) => phase,
        };
        self.phase = next;
    }
}

} // verus!
