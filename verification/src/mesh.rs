//! The mesh resource, as the cache sees it: a named asset with a load
//! phase.  Vertex data and GPU buffers live with the rendering layer;
//! the cache only tracks identity and progress.

use vstd::prelude::*;

use crate::resource::Clonable;
use crate::resource::Create;

verus! {

/// Load phase of a resource's data: nothing read yet, or read.
pub const RES_STATE_EMPTY: i32 = 0;

/// See `RES_STATE_EMPTY`.
pub const RES_STATE_READ: i32 = 1;

#[derive(Clone, Debug)]
pub struct Mesh {
    pub name: String,
    pub state: i32,
}

impl Mesh {
    pub fn new() -> (r: Mesh)
        ensures
            r.name@ =~= Seq::<char>::empty(),
            r.state == RES_STATE_EMPTY,
    {
        Mesh { name: String::new(), state: RES_STATE_EMPTY }
    }

    /// A mesh bound to a file path; nothing is read yet.
    pub fn new_from_file(name: &str) -> (r: Mesh)
        ensures
            r.name@ == name@,
            r.state == RES_STATE_EMPTY,
    {
        Mesh { name: name.to_owned(), state: RES_STATE_EMPTY }
    }

    /// Record that the mesh data has been brought in.  The parsing of
    /// the file itself is the embedder's work.
    pub fn file_read(&mut self)
        ensures
            final(self).name@ == old(self).name@,
            final(self).state == RES_STATE_READ,
    {
        self.state = RES_STATE_READ;
    }
}

impl Clonable for Mesh {
    /// Mesh data is plain and may be duplicated freely.
    fn make_clone(&self) -> (r: Option<Mesh>)
        ensures
            r matches Some(c) && c.name == self.name && c.state == self.state,
    {
        Some(Mesh { name: self.name.clone(), state: self.state })
    }
}

impl Create for Mesh {
    fn create(name: &str) -> Mesh {
        Mesh::new_from_file(name)
    }

    fn inittt(&mut self) {
        self.file_read();
    }
}

} // verus!
