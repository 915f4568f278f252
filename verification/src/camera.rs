//! The fixed camera of the scene.

use vstd::prelude::*;
use crate::ratio::Ratio;

verus! {

/// Width of the window, in pixels.
pub const WINDOW_WIDTH: u32 = 640;

/// Height of the window, in pixels.
pub const WINDOW_HEIGHT: u32 = 480;

/// Number of vertices drawn in each frame: one triangle.
pub const VERTEX_COUNT: u32 = 3;

/// Where a camera stands, where it looks, and what it sees.
///
/// Points and directions are `(x, y, z)` in whole units. The field of view is
/// the vertical one, in degrees. The planes that bound the view in depth are
/// given by their distances from the camera.
#[derive(Clone, Copy, Debug)]
pub struct Camera {
    pub eye: (i32, i32, i32),
    pub target: (i32, i32, i32),
    pub up: (i32, i32, i32),
    pub fov_y_degrees: u32,
    pub aspect: Ratio,
    pub near: Ratio,
    pub far: Ratio,
}

impl Camera {
    /// Whether this is the camera of the scene for a viewport of `width` by
    /// `height` pixels: five units up the z axis, looking at the origin with
    /// the y axis upwards, through 45 degrees, from a tenth of a unit to a
    /// hundred units deep, as wide for its height as the viewport is.
    pub open spec fn frames_viewport(&self, width: u32, height: u32) -> bool {
        &&& self.eye == (0i32, 0i32, 5i32)
        &&& self.target == (0i32, 0i32, 0i32)
        &&& self.up == (0i32, 1i32, 0i32)
        &&& self.fov_y_degrees == 45
        &&& self.aspect.num() == width
        &&& self.aspect.den() == height
        &&& self.near.num() == 1
        &&& self.near.den() == 10
        &&& self.far.num() == 100
        &&& self.far.den() == 1
    }

    /// The camera of the scene for a viewport of `width` by `height` pixels.
    pub fn for_viewport(width: u32, height: u32) -> (camera: Self)
        requires
            height > 0,
        ensures
            camera.frames_viewport(width, height),
    {
        Camera {
            eye: (0, 0, 5),
            target: (0, 0, 0),
            up: (0, 1, 0),
            fov_y_degrees: 45,
            aspect: Ratio::new(width, height),
            near: Ratio::new(1, 10),
            far: Ratio::new(100, 1),
        }
    }
}

} // verus!
