//! The state that the loop carries from frame to frame.

use vstd::prelude::*;
use crate::camera::Camera;
use crate::clock::{drained, lemma_drained_after_one_step, TICKS_PER_STEP};
use crate::geometry::{Coord, Point3};
use crate::input::UserInput;

verus! {

/// Frame size, pointer position, time accumulator and camera.
///
/// `spare_time` is the accumulator's balance in ticks. Each update banks the
/// time that passed and then takes whole steps from the balance until it is no
/// longer positive, so that from a balance within the last step before zero
/// it ends there again.
#[derive(Clone, Copy, Debug, PartialEq, Eq)]
pub struct LocalState {
    pub frame_dimensions: Coord,
    pub mouse: Coord,
    pub spare_time: i64,
    pub camera: Camera,
}

impl LocalState {
    /// The accumulator's balance lies in the last step before zero.
    pub open spec fn within_one_step(self) -> bool {
        -TICKS_PER_STEP < self.spare_time <= 0
    }

    /// The state at the start: the given frame size, the pointer at the origin,
    /// an empty accumulator, and the camera one world unit before the origin.
    pub open spec fn initial(frame_dimensions: Coord) -> LocalState {
        LocalState {
            frame_dimensions,
            mouse: Coord { x: 0, y: 0 },
            spare_time: 0,
            camera: Camera { position: Point3 { x: 0, y: 0, z: -1000i32 } },
        }
    }

    /// The state after one snapshot: a new frame size and a new pointer position
    /// replace the old ones, and the accumulator banks the elapsed time and is
    /// drained. The camera stays.
    pub open spec fn updated(self, input: UserInput) -> LocalState {
        LocalState {
            frame_dimensions: match input.new_frame_size {
                Some(size) => size,
                None => self.frame_dimensions,
            },
            mouse: match input.new_mouse_position {
                Some(position) => position,
                None => self.mouse,
            },
            spare_time: drained(self.spare_time + input.elapsed_ticks) as i64,
            camera: self.camera,
        }
    }

    /// The state after a run of snapshots, taken in order.
    pub open spec fn updated_by_all(self, inputs: Seq<UserInput>) -> LocalState
        decreases inputs.len(),
    {
        if inputs.len() == 0 {
            self
        } else {
            self.updated_by_all(inputs.drop_last()).updated(inputs.last())
        }
    }

    pub fn new(frame_dimensions: Coord) -> (state: LocalState)
        ensures
            state == LocalState::initial(frame_dimensions),
            state.within_one_step(),
    {
        LocalState {
            frame_dimensions,
            mouse: Coord::new(0, 0),
            spare_time: 0,
            camera: Camera::new_at_position(Point3::new(0, 0, -1000)),
        }
    }

    /// Takes one snapshot into the state.
    pub fn update_from_input(&mut self, input: &UserInput)
        ensures
            *final(self) == old(self).updated(*input),
            final(self).spare_time == drained(old(self).spare_time + input.elapsed_ticks),
            final(self).spare_time <= 0,
            old(self).spare_time + input.elapsed_ticks > -TICKS_PER_STEP
                <==> final(self).spare_time > -TICKS_PER_STEP,
    {
        if let Some(frame_size) = input.new_frame_size {
            self.frame_dimensions = frame_size;
        }
        if let Some(position) = input.new_mouse_position {
            self.mouse = position;
        }
        let ghost banked: int = self.spare_time + input.elapsed_ticks;
        let mut balance: i128 = self.spare_time as i128 + input.elapsed_ticks as i128;
        while balance > 0
            invariant
                balance <= banked,
                i64::MIN <= banked <= i64::MAX + u64::MAX,
                drained(balance as int) == drained(banked),
            decreases balance + TICKS_PER_STEP,
        {
            proof {
                lemma_drained_after_one_step(balance as int);
            }
            balance -= TICKS_PER_STEP as i128;
        }
        self.spare_time = balance as i64;
    }
}

/// From a balance within the last step before zero, the accumulator is there
/// again after every snapshot of a run.
pub proof fn lemma_accumulator_stays_within_one_step(state: LocalState, inputs: Seq<UserInput>)
    requires
        state.within_one_step(),
    ensures
        state.updated_by_all(inputs).within_one_step(),
    decreases inputs.len(),
{
    if inputs.len() > 0 {
        lemma_accumulator_stays_within_one_step(state, inputs.drop_last());
    }
}

/// After a run of snapshots the frame has the size that the latest snapshot
/// with a new size brought.
pub proof fn lemma_frame_dimensions_follow_latest_resize(
    state: LocalState,
    inputs: Seq<UserInput>,
    latest: int,
)
    requires
        0 <= latest < inputs.len(),
        inputs[latest].new_frame_size is Some,
        forall|j: int| latest < j < inputs.len() ==> inputs[j].new_frame_size is None,
    ensures
        inputs[latest].new_frame_size == Some(state.updated_by_all(inputs).frame_dimensions),
    decreases inputs.len(),
{
    if latest < inputs.len() - 1 {
        lemma_frame_dimensions_follow_latest_resize(state, inputs.drop_last(), latest);
    }
}

/// A run of snapshots of which none brings a new size leaves the frame's size
/// as it was.
pub proof fn lemma_frame_dimensions_stay_without_resize(state: LocalState, inputs: Seq<UserInput>)
    requires
        forall|j: int| 0 <= j < inputs.len() ==> inputs[j].new_frame_size is None,
    ensures
        state.updated_by_all(inputs).frame_dimensions == state.frame_dimensions,
    decreases inputs.len(),
{
    if inputs.len() > 0 {
        lemma_frame_dimensions_stay_without_resize(state, inputs.drop_last());
    }
}

} // verus!
