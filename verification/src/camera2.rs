//! The second-generation camera.  The projection choice and the camera
//! record live here; the numeric fields are double bit patterns (see
//! the `transform` module) that the rendering layer interprets.

use vstd::prelude::*;

use crate::camera;

verus! {

/// How a camera projects the scene.
#[derive(Clone, Copy, PartialEq, Eq, Structural, Debug)]
pub enum Projection {
    Perspective,
    Orthographic,
}

impl Projection {
    /// The same choice, carried over from the first-generation camera.
    pub fn from_old_camera_data(p: &camera::Projection) -> (r: Projection)
        ensures
            r == match p {
                camera::Projection::Perspective => Projection::Perspective,
                camera::Projection::Orthographic => Projection::Orthographic,
            },
    {
        match p {
            camera::Projection::Perspective => Projection::Perspective,
            camera::Projection::Orthographic => Projection::Orthographic,
        }
    }
}

/// Camera state: projection parameters and the viewport, each numeric
/// field a double bit pattern.
#[derive(Clone, Copy, PartialEq, Eq, Structural, Debug)]
pub struct Camera {
    pub fovy: u64,
    pub fovy_base: u64,
    pub near: u64,
    pub far: u64,
    pub aspect: u64,
    pub width: u64,
    pub height: u64,
    pub height_base: i32,
    pub projection: Projection,
}

} // verus!
