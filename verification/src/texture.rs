//! The texture resource, as the cache sees it: a named image with a
//! load phase.  Pixel data and the GL-side object live with the
//! rendering layer.

use vstd::prelude::*;

use crate::mesh::RES_STATE_EMPTY;
use crate::mesh::RES_STATE_READ;
use crate::resource::Clonable;
use crate::resource::Create;

verus! {

/// Marker for the GL-side texture object, owned by the renderer.
pub struct CglTexture;

#[derive(Clone, Debug)]
pub struct Texture {
    pub name: String,
    pub state: i32,
}

impl Texture {
    pub fn new(name: &str) -> (r: Texture)
        ensures
            r.name@ == name@,
            r.state == RES_STATE_EMPTY,
    {
        Texture { name: name.to_owned(), state: RES_STATE_EMPTY }
    }

    /// Record that the image data has been brought in; decoding the
    /// file is the embedder's work.
    pub fn load(&mut self)
        ensures
            final(self).name@ == old(self).name@,
            final(self).state == RES_STATE_READ,
    {
        self.state = RES_STATE_READ;
    }

    /// Drop the CPU-side image data once the renderer owns a copy: the
    /// texture returns to its unloaded phase.
    pub fn release(&mut self)
        ensures
            final(self).name@ == old(self).name@,
            final(self).state == RES_STATE_EMPTY,
    {
        self.state = RES_STATE_EMPTY;
    }
}

impl Clonable for Texture {
    /// A texture may own GL-side state, so it is never duplicated.
    fn make_clone(&self) -> (r: Option<Texture>)
        ensures
            r is None,
    {
        None
    }
}

impl Create for Texture {
    fn create(name: &str) -> Texture {
        Texture::new(name)
    }

    fn inittt(&mut self) {
        self.load();
    }
}

} // verus!
