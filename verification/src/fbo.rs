//! The framebuffer-object resource, as the cache sees it.  The GL-side
//! object lives with the rendering layer.

use vstd::prelude::*;

use crate::mesh::RES_STATE_EMPTY;
use crate::resource::Clonable;
use crate::resource::Create;

verus! {

/// Which plane of a framebuffer a sampler reads.
#[derive(Clone, Copy, PartialEq, Eq, Structural, Debug)]
pub enum Attachment {
    Color,
    Depth,
}

#[derive(Clone, Debug)]
pub struct Fbo {
    pub name: String,
    pub state: i32,
}

impl Fbo {
    pub fn new(name: &str) -> (r: Fbo)
        ensures
            r.name@ == name@,
            r.state == RES_STATE_EMPTY,
    {
        Fbo { name: name.to_owned(), state: RES_STATE_EMPTY }
    }
}

impl Clonable for Fbo {
    /// A framebuffer owns GL-side state, so it is never duplicated.
    fn make_clone(&self) -> (r: Option<Fbo>)
        ensures
            r is None,
    {
        None
    }
}

impl Create for Fbo {
    fn create(name: &str) -> Fbo {
        Fbo::new(name)
    }

    fn inittt(&mut self) {
    }
}

} // verus!
