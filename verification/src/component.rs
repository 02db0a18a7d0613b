//! Object components: the minimal per-frame behavior interface and the
//! plain data components that gameplay code attaches to objects.

use vstd::prelude::*;

use crate::mesh_render::MeshRender;

verus! {

/// A component that advances itself once per frame.
pub trait CompTrait {
    fn update(&mut self);
}

/// The player-control behavior; its movement logic is numeric work that
/// lives with the gameplay layer.
#[derive(Clone)]
pub struct PlayerBehavior;

/// A named collision volume.
#[derive(Clone, Debug, Default)]
pub struct Collider {
    pub name: String,
}

impl CompTrait for MeshRender {
    /// Drawables carry no per-frame state of their own.
    fn update(&mut self) {
    }
}

} // verus!
