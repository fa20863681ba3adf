//! Half-step excitation sequencing for a four-wire stepper motor.
//!
//! The motor is turned by driving four output lines, one per coil, through
//! an eight-row excitation table, and letting the coils settle for a
//! millisecond after every row. Two control loops are built on that: one
//! makes a fixed number of forward revolutions and exits, the other polls an
//! "up" and a "down" button and turns while one of them is held.
//!
//! Nothing in this crate touches hardware or sleeps. It decides, and says
//! what it decided as plain values:
//!
//! - [`step`] and [`sequence`] turn table rows into a stream of
//!   [`command::Command`]s: line writes and settling delays, in the order in
//!   which they are to happen.
//! - [`control`] is the control loop as a state machine. Its caller asks for
//!   the current request, carries it out (acquires a line, reads the
//!   buttons, runs a stream of commands), reports the outcome as an event,
//!   and asks again.
//! - [`command`] also says what a stream of commands does to the lines, and
//!   [`run`] what a control loop does over a whole sequence of events; the
//!   properties of the sequencing are proved against those.

pub mod command;
pub mod control;
pub mod direction;
pub mod pins;
pub mod run;
pub mod sequence;
pub mod step;
pub mod table;
