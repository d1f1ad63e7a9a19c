//! The input of one simulation step.

use vstd::prelude::*;

verus! {

/// The seven control signals of one simulation step.
#[derive(Clone, Copy, Debug, PartialEq, Eq, Structural)]
pub struct KeyPress {
    pub right_rotate: bool,
    pub left_rotate: bool,
    pub hold: bool,
    pub soft_drop: bool,
    pub hard_drop: bool,
    pub right_move: bool,
    pub left_move: bool,
}

/// The input of exactly one simulation step: the control signals and the
/// absolute time, in milliseconds, at which they were sampled.
#[derive(Clone, Copy, Debug, PartialEq, Eq, Structural)]
pub struct InputEvent {
    pub timestamp: i32,
    pub keys: KeyPress,
}

} // verus!
