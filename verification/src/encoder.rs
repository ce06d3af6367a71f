use vstd::prelude::*;

verus! {

/// The way a quadrature encoder moved between two readings of its pins.
#[derive(Clone, Copy, Debug, PartialEq, Eq, Structural)]
pub enum Direction {
    Clockwise,
    CounterClockwise,
    Stationary,
}

/// Detents by which one reading of an encoder moves its position; `None`
/// stands for a reading that failed.
pub open spec fn turn_step(reading: Option<Direction>) -> int {
    match reading {
        Some(Direction::Clockwise) => -1,
        Some(Direction::CounterClockwise) => 1,
        _ => 0,
    }
}

/// Turns a reading of an encoder into detents: clockwise counts down,
/// counter-clockwise up, and no movement or a failed reading not at all.
pub fn turn_increment(reading: Option<Direction>) -> (step: isize)
    ensures
        step == turn_step(reading),
{
    match reading {
        Some(Direction::Clockwise) => -1,
        Some(Direction::CounterClockwise) => 1,
        _ => 0,
    }
}

} // verus!
