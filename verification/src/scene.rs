//! Scene-side building blocks that belong to the verified core: how a
//! serialized component names its kind, and the pooled storage scheme.
//! Scene files themselves (reading, JSON) live with the embedder.

use vstd::prelude::*;

verus! {

/// How a serialized component identifies its kind: by a registered
/// name, or as the built-in enemy behavior.
#[derive(Clone, Debug)]
pub enum CompIdent {
    Named(String),
    Enemy,
}

/// Pooled storage: live values at the front, `unused` spare cells kept
/// at the end of the vector for reuse.
pub struct Pool<T> {
    pub data: Vec<T>,
    pub unused: usize,
}

impl<T> Pool<T> {
    /// The spare cells all lie within the vector.
    pub open spec fn wf(&self) -> bool {
        self.unused <= self.data@.len()
    }

    /// How many cells are live.
    pub open spec fn live_count(&self) -> int {
        self.data@.len() - self.unused
    }
}

} // verus!
