//! What one poll of the window's events has gathered.

use vstd::prelude::*;
use crate::geometry::Coord;

verus! {

/// A snapshot of the input, taken once per turn of the loop and not kept
/// beyond it.
#[derive(Clone, Copy, Debug, PartialEq, Eq)]
pub struct UserInput {
    /// The user asked for the window to be closed.
    pub end_requested: bool,
    /// The size of the frame, where it changed since the last poll.
    pub new_frame_size: Option<Coord>,
    /// The pointer's position, where it moved since the last poll.
    pub new_mouse_position: Option<Coord>,
    /// The time that passed since the last poll, in ticks.
    pub elapsed_ticks: u64,
}

impl UserInput {
    /// The snapshot of a poll in which nothing happened and no time passed.
    pub open spec fn idle() -> UserInput {
        UserInput {
            end_requested: false,
            new_frame_size: None,
            new_mouse_position: None,
            elapsed_ticks: 0,
        }
    }
}

impl Default for UserInput {
    fn default() -> (input: UserInput)
        ensures
            input == UserInput::idle(),
    {
        UserInput {
            end_requested: false,
            new_frame_size: None,
            new_mouse_position: None,
            elapsed_ticks: 0,
        }
    }
}

} // verus!
