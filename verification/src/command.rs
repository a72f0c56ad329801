//! The six operations of the command line.

use vstd::prelude::*;
use crate::sample::Binary64;

verus! {

/// One operation, with its arguments as the command line gave them. Neither
/// the axis nor a speed is checked here: the controller's library decides
/// what it accepts.
#[derive(Clone, Copy, Debug, PartialEq, Eq, Structural)]
pub enum Command {
    /// Move an axis to a position.
    Move { axis: i32, position: Binary64 },
    /// Move an axis to a position at a given speed.
    MoveSpeed { axis: i32, position: Binary64, speed: Binary64 },
    /// Read the position and the speed of every axis.
    Position,
    /// Read the number of axes.
    NumAxes,
    /// Read the status of the manipulator.
    Status,
    /// Stop the manipulator.
    Stop,
}

} // verus!
