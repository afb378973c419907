use vstd::prelude::*;

use crate::entity::Entity;
use crate::quaternions::{qzero, Quaternion};

verus! {

/// A flat list of entities around an origin.
#[derive(Clone)]
pub struct World {
    pub origin: Quaternion,
    pub objects: Vec<Entity>,
}

impl World {
    /// An empty world with its origin at zero.
    pub fn new() -> (r: World)
        ensures
            r.origin@ == qzero(),
            r.objects@.len() == 0,
    {
        World { origin: Quaternion::zero(), objects: Vec::new() }
    }

    /// Takes an entity and leaves the world as it is: the world is shared here,
    /// so the entity is dropped.
    pub fn add_object(&self, _e: Entity) -> (r: &World)
        ensures
            r == self,
    {
        self
    }

    /// Replaces the entities of the world and hands it back.
    pub fn load_entities(&mut self, e: Vec<Entity>) -> (r: &World)
        ensures
            *r == *final(self),
            final(self).objects@ == e@,
            final(self).origin == old(self).origin,
    {
        self.objects = e;
        self
    }

    /// Saving a world keeps nothing yet.
    pub fn save_world(&self) {
    }
}

/// A new, empty world.
pub fn load_world() -> (r: World)
    ensures
        r.origin@ == qzero(),
        r.objects@.len() == 0,
{
    World::new()
}

} // verus!
