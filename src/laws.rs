use vstd::prelude::*;

use crate::mesh::{rotated, rotation_fits, Mesh};
use crate::octonions::{flat, olerp, omul, oconj, split, Octonion};
use crate::quaternions::{qadd, qconj, qmul, qneg, qpure, qsandwich, qzero, Quat, Quaternion};

verus! {

/// The true multiplicative identity `[1, 0, 0, 0]`, as a rotor.
pub open spec fn identity_rotor() -> Quat {
    Quat { w: 1, x: 0, y: 0, z: 0 }
}

/// Conjugation reverses products: `conj(a) * conj(b) == conj(b * a)`.
pub proof fn conj_reverses_products(a: Quaternion, b: Quaternion)
    ensures
        qmul(qconj(a@), qconj(b@)) == qconj(qmul(b@, a@)),
{
    let (p, q) = (a@, b@);
    assert(p.w * q.w - (-p.x) * (-q.x) - (-p.y) * (-q.y) - (-p.z) * (-q.z)
        == q.w * p.w - q.x * p.x - q.y * p.y - q.z * p.z) by (nonlinear_arith);
    assert(p.w * (-q.x) + (-p.x) * q.w + (-p.y) * (-q.z) - (-p.z) * (-q.y)
        == -(q.w * p.x + q.x * p.w + q.y * p.z - q.z * p.y)) by (nonlinear_arith);
    assert(p.w * (-q.y) - (-p.x) * (-q.z) + (-p.y) * q.w + (-p.z) * (-q.x)
        == -(q.w * p.y - q.x * p.z + q.y * p.w + q.z * p.x)) by (nonlinear_arith);
    assert(p.w * (-q.z) + (-p.x) * (-q.y) - (-p.y) * (-q.x) + (-p.z) * q.w
        == -(q.w * p.z + q.x * p.y - q.y * p.x + q.z * p.w)) by (nonlinear_arith);
}

/// Every octonion commutes with its own conjugate: `o * conj(o) == conj(o) * o`.
pub proof fn commutes_with_own_conj(o: Octonion)
    ensures
        omul(o@, oconj(o@)) == omul(oconj(o@), o@),
{
    let (a, b) = (o.q1@, o.q2@);
    assert(qmul(a, qconj(a)) == qmul(qconj(a), a)) by (nonlinear_arith);
    assert(qmul(qconj(qneg(b)), b) == qmul(qconj(b), qneg(b))) by (nonlinear_arith);
    assert(qconj(qconj(a)) == a);
    assert(qadd(qmul(qneg(b), a), qmul(b, a)) == qzero()) by (nonlinear_arith);
    assert(qadd(qmul(b, qconj(a)), qmul(qneg(b), qconj(a))) == qzero()) by (nonlinear_arith);
}

/// Rotating a point by the identity rotor `[1, 0, 0, 0]` can be done and leaves
/// the point as it is.
pub proof fn identity_rotation_keeps_point(p: [i32; 3])
    ensures
        rotation_fits(identity_rotor(), p),
        rotated(identity_rotor(), p) == p,
{
    assert(qsandwich(identity_rotor(), qpure(p)) == qpure(p)) by (nonlinear_arith);
    assert(rotated(identity_rotor(), p) =~= p);
}

/// Rotating a mesh by the identity rotor `[1, 0, 0, 0]` can be done and leaves
/// every position as it is.
pub proof fn identity_rotation_keeps_mesh(m: Mesh)
    ensures
        forall|k: int| 0 <= k < m.positions@.len() ==> rotation_fits(identity_rotor(), #[trigger] m.positions@[k]),
        forall|k: int| 0 <= k < m.positions@.len() ==> rotated(identity_rotor(), #[trigger] m.positions@[k]) == m.positions@[k],
{
    assert forall|k: int| 0 <= k < m.positions@.len() implies rotation_fits(identity_rotor(), #[trigger] m.positions@[k])
        && rotated(identity_rotor(), m.positions@[k]) == m.positions@[k] by {
        identity_rotation_keeps_point(m.positions@[k]);
    }
}

/// Splitting the array of an octonion gives the octonion back:
/// `Octonion::new(o.as_array()) == o`.
pub proof fn array_round_trip(o: Octonion)
    ensures
        split(flat(o)) == o,
{
    assert(split(flat(o)).q1.val =~= o.q1.val);
    assert(split(flat(o)).q2.val =~= o.q2.val);
}

/// Interpolation starts at the first octonion and ends at the second.
pub proof fn lerp_boundaries(a: Octonion, b: Octonion)
    ensures
        olerp(a@, b@, 0) == a@,
        olerp(a@, b@, 1) == b@,
{
}

} // verus!
