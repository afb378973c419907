use vstd::prelude::*;

use crate::mesh::Mesh;
use crate::octonions::{flat, Octonion};
use crate::quaternions::{fits, qone, qsandwich, qzero, sandwich, Quaternion};

verus! {

/// A renderable object: a position carrier, an orientation rotor and the mesh
/// it owns, with the mesh's vertex count kept beside it.
#[derive(Clone, Debug, PartialEq)]
pub struct Entity {
    pub pos: Octonion,
    pub orient: Quaternion,
    pub model: Mesh,
    pub len: usize,
}

impl Entity {
    /// Whether `len` is the number of positions of the mesh.
    pub open spec fn synced(&self) -> bool {
        self.len == self.model.positions@.len()
    }

    /// An entity at the unit position `[1; 8]`, with orientation zero and an
    /// empty mesh.
    pub fn new() -> (r: Entity)
        ensures
            r.pos.q1@ == qone(),
            r.pos.q2@ == qone(),
            r.orient@ == qzero(),
            r.model.positions@.len() == 0,
            r.model.normals@.len() == 0,
            r.model.indices@.len() == 0,
            r.model.scale == 0,
            r.model.offset == [0i32, 0, 0],
            r.len == 0,
            r.synced(),
    {
        Entity { pos: Octonion::one(), orient: Quaternion::zero(), model: Mesh::new(), len: 0 }
    }

    /// Turns the position's first half by the orientation:
    /// `pos.q1 = orient * pos.q1 * conj(orient)`. Nothing else changes; the
    /// entity is handed back.
    pub fn rotate(&mut self) -> (r: &Entity)
        requires
            fits(qsandwich(old(self).orient@, old(self).pos.q1@)),
        ensures
            final(self).pos.q1@ == qsandwich(old(self).orient@, old(self).pos.q1@),
            final(self).pos.q2 == old(self).pos.q2,
            final(self).orient == old(self).orient,
            final(self).model == old(self).model,
            final(self).len == old(self).len,
            *r == *final(self),
    {
        self.pos.q1 = sandwich(self.orient, self.pos.q1);
        self
    }

    /// The eight components of the position.
    pub fn pos_as_arr(&self) -> (r: [i32; 8])
        ensures
            r == flat(self.pos),
    {
        self.pos.as_array()
    }

    /// The positions of the mesh.
    pub fn as_vec(&self) -> (r: &Vec<[i32; 3]>)
        ensures
            r@ == self.model.positions@,
    {
        &self.model.positions
    }

    /// Replaces the mesh and sets `len` to its number of positions; hands the
    /// entity back for further changes.
    pub fn add_model(&mut self, m: Mesh) -> (r: &mut Entity)
        ensures
            r.model == m,
            r.len == m.positions@.len(),
            r.synced(),
            r.pos == old(self).pos,
            r.orient == old(self).orient,
            *final(self) == *final(r),
    {
        self.len = m.positions.len();
        self.model = m;
        self
    }

    /// Sets the scale of the mesh and hands the entity back.
    pub fn set_scale(self, new_scale: i32) -> (r: Entity)
        ensures
            r.model.scale == new_scale,
            r.model.positions == self.model.positions,
            r.model.normals == self.model.normals,
            r.model.indices == self.model.indices,
            r.model.offset == self.model.offset,
            r.pos == self.pos,
            r.orient == self.orient,
            r.len == self.len,
    {
        let mut e = self;
        e.model.scale = new_scale;
        e
    }
}

impl Default for Entity {
    /// Same as `Entity::new`.
    fn default() -> (r: Entity)
        ensures
            r.pos.q1@ == qone(),
            r.pos.q2@ == qone(),
            r.orient@ == qzero(),
            r.model.positions@.len() == 0,
            r.model.normals@.len() == 0,
            r.model.indices@.len() == 0,
            r.model.scale == 0,
            r.model.offset == [0i32, 0, 0],
            r.len == 0,
    {
        Entity::new()
    }
}

} // verus!
