//! The entity world's reference types and small building blocks: stable
//! entity references, marker components, and graph hooks.

use vstd::prelude::*;

verus! {

/// A read-only reference to an entity: its stable id, and its current
/// index in the world's storage.
#[derive(Clone, Copy, PartialEq, Eq, Structural, Debug, PartialOrd, Ord, Hash)]
pub struct EntityRef {
    id: usize,
    index: usize,
}

/// A mutating reference to an entity, carrying the same coordinates.
#[derive(Clone, Copy, PartialEq, Eq, Structural, Debug)]
pub struct EntityMut {
    pub id: usize,
    index: usize,
}

impl EntityRef {
    pub closed spec fn id_spec(&self) -> usize {
        self.id
    }

    pub closed spec fn index_spec(&self) -> usize {
        self.index
    }

    pub fn new(id: usize, index: usize) -> (r: EntityRef)
        ensures
            r.id_spec() == id,
            r.index_spec() == index,
    {
        EntityRef { id, index }
    }

    pub fn to_mut(&self) -> (r: EntityMut)
        ensures
            r.id_spec() == self.id_spec(),
            r.index_spec() == self.index_spec(),
    {
        EntityMut { id: self.id, index: self.index }
    }
}

impl EntityMut {
    pub closed spec fn id_spec(&self) -> usize {
        self.id
    }

    pub closed spec fn index_spec(&self) -> usize {
        self.index
    }

    pub fn new(id: usize, index: usize) -> (r: EntityMut)
        ensures
            r.id_spec() == id,
            r.index_spec() == index,
    {
        EntityMut { id, index }
    }
}

/// A weapon component; it carries no data of its own.
#[derive(Clone, Copy, PartialEq, Eq, Structural, Debug, Default)]
pub struct Weapon;

/// The world change that changes nothing.
#[derive(Clone, Copy, PartialEq, Eq, Structural, Debug, Default)]
pub struct Nothing;

/// A world that can be grown empty-handed.
pub trait WorldTrait: Default {
    fn add_empty(&mut self);
}

/// A parent relation over entities.
pub trait Graph<E> {
    fn get_parent(&self, e: &E) -> Option<E>;
}

/// The trivial graph: nothing has a parent.
#[derive(Clone, Copy, PartialEq, Eq, Structural, Debug, Default)]
pub struct NoGraph;

impl<E> Graph<E> for NoGraph {
    fn get_parent(&self, e: &E) -> Option<E> {
        None
    }
}

/// Which entity owns each stored component, one index list per
/// component kind.
#[derive(Clone, Debug)]
pub struct DataOwners {
    pub human: Vec<usize>,
    pub zombie: Vec<usize>,
    pub weapon: Vec<usize>,
    pub transform: Vec<usize>,
    pub camera: Vec<usize>,
    pub mesh_render: Vec<usize>,
}

impl DataOwners {
    pub fn new() -> (r: DataOwners)
        ensures
            r.human@ =~= Seq::<usize>::empty(),
            r.zombie@ =~= Seq::<usize>::empty(),
            r.weapon@ =~= Seq::<usize>::empty(),
            r.transform@ =~= Seq::<usize>::empty(),
            r.camera@ =~= Seq::<usize>::empty(),
            r.mesh_render@ =~= Seq::<usize>::empty(),
    {
        DataOwners {
            human: Vec::new(),
            zombie: Vec::new(),
            weapon: Vec::new(),
            transform: Vec::new(),
            camera: Vec::new(),
            mesh_render: Vec::new(),
        }
    }
}

} // verus!
