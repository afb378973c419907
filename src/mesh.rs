use vstd::prelude::*;

use crate::quaternions::{fits, qpure, qsandwich, sandwich, Quat, Quaternion};

verus! {

/// The 3-vector that `p` becomes when rotated by `r`: the imaginary part of
/// `r * [0, p] * conj(r)`.
pub open spec fn rotated(r: Quat, p: [i32; 3]) -> [i32; 3] {
    let s = qsandwich(r, qpure(p));
    [s.x as i32, s.y as i32, s.z as i32]
}

/// Whether rotating `p` by `r` gives components that can be stored.
pub open spec fn rotation_fits(r: Quat, p: [i32; 3]) -> bool {
    fits(qsandwich(r, qpure(p)))
}

/// The 3-vectors read three at a time from a flat sequence of components.
pub open spec fn chunks3(v: Seq<i32>) -> Seq<[i32; 3]> {
    Seq::new((v.len() / 3) as nat, |k: int| [v[3 * k], v[3 * k + 1], v[3 * k + 2]])
}

/// The geometry of a renderable object.
///
/// `positions` and `normals` match by index, and each value of `indices` is an
/// index into them, three to a triangle.
#[derive(Clone, Debug, Default, PartialEq)]
pub struct Mesh {
    pub positions: Vec<[i32; 3]>,
    pub normals: Vec<[i32; 3]>,
    pub indices: Vec<u32>,
    pub scale: i32,
    pub offset: [i32; 3],
}

impl Mesh {
    /// Whether the normals (if any) match the positions one for one, and every
    /// index is that of a position.
    pub open spec fn wf(&self) -> bool {
        &&& (self.normals@.len() == 0 || self.normals@.len() == self.positions@.len())
        &&& forall|k: int| 0 <= k < self.indices@.len() ==> (self.indices@[k] as int) < self.positions@.len()
    }

    /// An empty mesh with scale zero and no offset.
    pub fn new() -> (r: Mesh)
        ensures
            r.positions@.len() == 0,
            r.normals@.len() == 0,
            r.indices@.len() == 0,
            r.scale == 0,
            r.offset == [0i32, 0, 0],
            r.wf(),
    {
        Mesh { positions: Vec::new(), normals: Vec::new(), indices: Vec::new(), scale: 0, offset: [0, 0, 0] }
    }

    /// Builds a mesh from the flat buffers of a loaded model: positions and
    /// normals three components at a time, the indices as they are.
    pub fn from_tobj_to_mesh(
        positions: &Vec<i32>,
        normals: &Vec<i32>,
        indices: &Vec<u32>,
        translation: [i32; 3],
        scale: i32,
    ) -> (r: Mesh)
        requires
            positions@.len() % 3 == 0,
            normals@.len() % 3 == 0,
        ensures
            r.positions@ == chunks3(positions@),
            r.normals@ == chunks3(normals@),
            r.indices@ == indices@,
            r.scale == scale,
            r.offset == translation,
    {
        Mesh {
            positions: group3(positions),
            normals: group3(normals),
            indices: indices.clone(),
            scale,
            offset: translation,
        }
    }

    /// Appends points to the positions and hands the mesh back.
    pub fn add_points(&mut self, inp: Vec<[i32; 3]>) -> (r: &Mesh)
        ensures
            *r == *final(self),
            final(self).positions@ == old(self).positions@ + inp@,
            final(self).normals == old(self).normals,
            final(self).indices == old(self).indices,
            final(self).scale == old(self).scale,
            final(self).offset == old(self).offset,
            old(self).wf() && old(self).normals@.len() == 0 ==> final(self).wf(),
    {
        let mut inp = inp;
        self.positions.append(&mut inp);
        self
    }

    /// Rotates every position `p` in place to the imaginary part of
    /// `rotator * [0, p] * conj(rotator)`. The normals are left as they are.
    pub fn rotate(&mut self, rotator: Quaternion)
        requires
            forall|k: int| 0 <= k < old(self).positions@.len() ==> rotation_fits(rotator@, #[trigger] old(self).positions@[k]),
        ensures
            final(self).positions@.len() == old(self).positions@.len(),
            forall|k: int| 0 <= k < final(self).positions@.len() ==> #[trigger] final(self).positions@[k] == rotated(rotator@, old(self).positions@[k]),
            final(self).normals == old(self).normals,
            final(self).indices == old(self).indices,
            final(self).scale == old(self).scale,
            final(self).offset == old(self).offset,
            final(self).wf() == old(self).wf(),
    {
        let n = self.positions.len();
        let mut i: usize = 0;
        while i < n
            invariant
                0 <= i <= n,
                n == old(self).positions@.len(),
                self.positions@.len() == n,
                forall|k: int| 0 <= k < i ==> #[trigger] self.positions@[k] == rotated(rotator@, old(self).positions@[k]),
                forall|k: int| i <= k < n ==> #[trigger] self.positions@[k] == old(self).positions@[k],
                forall|k: int| 0 <= k < n ==> rotation_fits(rotator@, #[trigger] old(self).positions@[k]),
                self.normals == old(self).normals,
                self.indices == old(self).indices,
                self.scale == old(self).scale,
                self.offset == old(self).offset,
            decreases n - i,
        {
            let p = self.positions[i];
            let q = sandwich(rotator, Quaternion::fom_imag(p));
            self.positions.set(i, q.imag());
            i = i + 1;
        }
    }
}

/// Groups a flat sequence of components into 3-vectors.
fn group3(v: &Vec<i32>) -> (r: Vec<[i32; 3]>)
    requires
        v@.len() % 3 == 0,
    ensures
        r@ == chunks3(v@),
{
    let len = v.len();
    let n = len / 3;
    let mut r: Vec<[i32; 3]> = Vec::with_capacity(n);
    let mut k: usize = 0;
    while k < n
        invariant
            0 <= k <= n,
            len == v@.len(),
            n == v@.len() / 3,
            v@.len() % 3 == 0,
            r@ =~= chunks3(v@).subrange(0, k as int),
        decreases n - k,
    {
        assert(3 * k + 2 < v@.len()) by (nonlinear_arith)
            requires
                k < n,
                n == v@.len() / 3,
                v@.len() % 3 == 0,
        ;
        r.push([v[3 * k], v[3 * k + 1], v[3 * k + 2]]);
        k = k + 1;
    }
    r
}

} // verus!
