//! The direction sampler: resolves the two button inputs to a rotation
//! intent.

use vstd::prelude::*;

verus! {

/// Rotation intent of one control cycle. It is computed afresh from every
/// sample and never carried over to the next.
#[derive(Clone, Copy, Debug, PartialEq, Eq, Structural)]
pub enum Direction {
    /// Neither button is asserted.
    NoDirection,
    Up,
    Down,
}

/// The intent that a pair of input levels stands for. Down takes priority:
/// with both inputs asserted at once the intent is `Down`.
pub open spec fn resolve_direction(up: bool, down: bool) -> Direction {
    if down {
        Direction::Down
    } else if up {
        Direction::Up
    } else {
        Direction::NoDirection
    }
}

/// Resolves one sample of the "up" and "down" inputs. `up` selects `Up`,
/// then `down` selects `Down` over whatever was selected; with neither
/// asserted the result is `NoDirection`.
pub fn sample_direction(up: bool, down: bool) -> (direction: Direction)
    ensures
        direction == resolve_direction(up, down),
{
    let mut direction = Direction::NoDirection;
    if up {
        direction = Direction::Up;
    }
    if down {
        direction = Direction::Down;
    }
    direction
}

} // verus!
