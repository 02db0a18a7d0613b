//! The armature resource, as the cache sees it: a named skeleton with
//! a load phase.  Bone data and skinning math live with the animation
//! layer.

use vstd::prelude::*;

use crate::mesh::RES_STATE_EMPTY;
use crate::mesh::RES_STATE_READ;
use crate::resource::Create;

verus! {

#[derive(Clone, Debug)]
pub struct Armature {
    pub name: String,
    pub state: i32,
}

impl Armature {
    pub fn new(name: &str) -> (r: Armature)
        ensures
            r.name@ == name@,
            r.state == RES_STATE_EMPTY,
    {
        Armature { name: name.to_owned(), state: RES_STATE_EMPTY }
    }

    /// Record that the skeleton data has been brought in; parsing the
    /// file is the embedder's work.
    pub fn file_read(&mut self)
        ensures
            final(self).name@ == old(self).name@,
            final(self).state == RES_STATE_READ,
    {
        self.state = RES_STATE_READ;
    }
}

impl Create for Armature {
    fn create(name: &str) -> Armature {
        Armature::new(name)
    }

    fn inittt(&mut self) {
        if self.state == RES_STATE_EMPTY {
            self.file_read();
        }
    }
}

} // verus!
