//! The fixed binding of logical lines to BCM pin numbers, and the order in
//! which a control loop acquires them.

use vstd::prelude::*;

verus! {

/// BCM pin of each motor coil line; entry `l` drives output line `l`.
pub const MOTOR_BCM_PINS: [u8; 4] = [4, 17, 27, 22];

/// BCM pin of the "up" button.
pub const BUTTON_UP_BCM_PIN: u8 = 23;

/// BCM pin of the "down" button.
pub const BUTTON_DOWN_BCM_PIN: u8 = 24;

/// The two control loops.
#[derive(Clone, Copy, Debug, PartialEq, Eq, Structural)]
pub enum Variant {
    /// Open loop: a fixed number of forward revolutions, then exit.
    FixedCount,
    /// Polls the two buttons forever and turns as they ask.
    Interactive,
}

/// One of the two input buttons.
#[derive(Clone, Copy, Debug, PartialEq, Eq, Structural)]
pub enum Button {
    Up,
    Down,
}

/// Something a control loop has to hold before it may run.
#[derive(Clone, Copy, Debug, PartialEq, Eq, Structural)]
pub enum Resource {
    /// Access to the GPIO peripheral, from which the lines are bound.
    Gpio,
    /// Output line `line`, bound to `bcm_pin` and configured as an output.
    OutputLine { line: usize, bcm_pin: u8 },
    /// The input line of `button`, bound to `bcm_pin` and configured as an
    /// input.
    InputLine { button: Button, bcm_pin: u8 },
}

/// What a control loop acquires at startup, in order: the GPIO peripheral,
/// the four output lines in line order, and for the interactive loop the
/// "up" and then the "down" input.
pub open spec fn acquisition_plan(variant: Variant) -> Seq<Resource> {
    let outputs = seq![
        Resource::Gpio,
        Resource::OutputLine { line: 0, bcm_pin: 4 },
        Resource::OutputLine { line: 1, bcm_pin: 17 },
        Resource::OutputLine { line: 2, bcm_pin: 27 },
        Resource::OutputLine { line: 3, bcm_pin: 22 },
    ];
    match variant {
        Variant::FixedCount => outputs,
        Variant::Interactive => outputs + seq![
            Resource::InputLine { button: Button::Up, bcm_pin: 23 },
            Resource::InputLine { button: Button::Down, bcm_pin: 24 },
        ],
    }
}

/// Number of resources that the loop acquires: five for the fixed-count
/// loop, seven for the interactive one.
pub fn acquisition_count(variant: Variant) -> (count: usize)
    ensures
        count == acquisition_plan(variant).len(),
        count == 5 || count == 7,
{
    match variant {
        Variant::FixedCount => 5,
        Variant::Interactive => 7,
    }
}

/// The resource at position `index` of the acquisition plan, if the plan is
/// that long. Pin numbers come from `MOTOR_BCM_PINS`, `BUTTON_UP_BCM_PIN` and
/// `BUTTON_DOWN_BCM_PIN`.
pub fn resource_at(variant: Variant, index: usize) -> (resource: Option<Resource>)
    ensures
        index < acquisition_plan(variant).len() ==> resource == Some(
            acquisition_plan(variant)[index as int],
        ),
        index >= acquisition_plan(variant).len() ==> resource.is_none(),
{
    if index == 0 {
        Some(Resource::Gpio)
    } else if index <= 4 {
        let line = index - 1;
        Some(Resource::OutputLine { line, bcm_pin: MOTOR_BCM_PINS[line] })
    } else if index >= acquisition_count(variant) {
        None
    } else if index == 5 {
        Some(Resource::InputLine { button: Button::Up, bcm_pin: BUTTON_UP_BCM_PIN })
    } else {
        Some(Resource::InputLine { button: Button::Down, bcm_pin: BUTTON_DOWN_BCM_PIN })
    }
}

} // verus!
