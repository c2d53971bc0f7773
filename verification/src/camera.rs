//! The viewpoint of the scene.

use vstd::prelude::*;
use crate::geometry::Point3;

verus! {

/// A camera that looks from a fixed position towards the origin of the scene.
#[derive(Clone, Copy, Debug, PartialEq, Eq)]
pub struct Camera {
    pub position: Point3,
}

impl Camera {
    pub fn new_at_position(position: Point3) -> (camera: Camera)
        ensures
            camera.position == position,
    {
        Camera { position }
    }
}

} // verus!
