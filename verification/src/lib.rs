//! The control core of a real-time rendering loop.
//!
//! Every frame the loop samples input, advances a fixed-step time accumulator,
//! submits a draw and, where the draw fails, picks the cheapest recovery that is
//! safe: a stale swapchain is recreated, a broken synchronisation primitive has
//! the whole renderer rebuilt. The window and the renderer stay outside: the
//! [`FrameController`] only decides what is to be done next, and is told how it
//! went.

pub mod camera;
pub mod clock;
pub mod controller;
pub mod geometry;
pub mod input;
pub mod outcome;
pub mod state;

pub use camera::Camera;
pub use clock::{ticks_from_nanos, NANOS_PER_SECOND, TICKS_PER_SECOND, TICKS_PER_STEP};
pub use controller::{Action, ControllerState, Event, FrameController, Phase};
pub use geometry::{Coord, Point3};
pub use input::UserInput;
pub use outcome::{DrawingError, Recovery};
pub use state::LocalState;
