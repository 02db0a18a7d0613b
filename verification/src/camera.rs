//! The first-generation camera component.  Only the projection choice
//! lives here; the numeric camera state (field of view, clip planes) is
//! floating-point work owned by the rendering layer.

use vstd::prelude::*;

verus! {

/// How a camera projects the scene.
#[derive(Clone, Copy, PartialEq, Eq, Structural, Debug)]
pub enum Projection {
    Perspective,
    Orthographic,
}

} // verus!
