use vstd::prelude::*;

use crate::quaternions::{
    fits, lemma_quat_of_view, narrow, qadd, qconj, qmul, qneg, qone, qscale, qshift, qsub,
    qzero, quat_of, wide_add, wq, wide_conj, wide_prod, wide_sub, widen, Quat, Quaternion,
};
use std::ops::{Add, Mul, Sub};

verus! {

/// The mathematical model of an octonion: a pair of quaternion models.
pub ghost struct Oct {
    pub q1: Quat,
    pub q2: Quat,
}

/// Whether both halves of a model can be stored.
pub open spec fn ofits(o: Oct) -> bool {
    fits(o.q1) && fits(o.q2)
}

/// The Cayley-Dickson product `(a1, a2) * (b1, b2)
/// = (a1 * b1 - conj(b2) * a2, b2 * a1 + a2 * conj(b1))`.
pub open spec fn omul(a: Oct, b: Oct) -> Oct {
    Oct {
        q1: qsub(qmul(a.q1, b.q1), qmul(qconj(b.q2), a.q2)),
        q2: qadd(qmul(b.q2, a.q1), qmul(a.q2, qconj(b.q1))),
    }
}

/// This library's octonion conjugate: the first half conjugated, the second
/// half negated entirely.
pub open spec fn oconj(o: Oct) -> Oct {
    Oct { q1: qconj(o.q1), q2: qneg(o.q2) }
}

/// Both halves added component-wise.
pub open spec fn oadd(a: Oct, b: Oct) -> Oct {
    Oct { q1: qadd(a.q1, b.q1), q2: qadd(a.q2, b.q2) }
}

/// Both halves subtracted component-wise.
pub open spec fn osub(a: Oct, b: Oct) -> Oct {
    Oct { q1: qsub(a.q1, b.q1), q2: qsub(a.q2, b.q2) }
}

/// Every component multiplied by a scalar.
pub open spec fn oscale(a: Oct, s: int) -> Oct {
    Oct { q1: qscale(a.q1, s), q2: qscale(a.q2, s) }
}

/// A scalar added to every component.
pub open spec fn oshift(a: Oct, s: int) -> Oct {
    Oct { q1: qshift(a.q1, s), q2: qshift(a.q2, s) }
}

/// Linear interpolation `a * (1 - t) + b * t`.
pub open spec fn olerp(a: Oct, b: Oct, t: int) -> Oct {
    oadd(oscale(a, 1 - t), oscale(b, t))
}

/// A quaternion promoted to an octonion, its second half zero.
pub open spec fn opromote(q: Quat) -> Oct {
    Oct { q1: q, q2: qzero() }
}

/// The octonion whose halves are those of a model that fits.
pub open spec fn oct_of(o: Oct) -> Octonion {
    Octonion { q1: quat_of(o.q1), q2: quat_of(o.q2) }
}

/// The octonion made of the first and the last four of eight components.
pub open spec fn split(v: [i32; 8]) -> Octonion {
    Octonion {
        q1: Quaternion { val: [v[0], v[1], v[2], v[3]] },
        q2: Quaternion { val: [v[4], v[5], v[6], v[7]] },
    }
}

/// The eight components of an octonion, first half first.
pub open spec fn flat(o: Octonion) -> [i32; 8] {
    [
        o.q1.val[0],
        o.q1.val[1],
        o.q1.val[2],
        o.q1.val[3],
        o.q2.val[0],
        o.q2.val[1],
        o.q2.val[2],
        o.q2.val[3],
    ]
}

/// An 8-component number held as two quaternions, `[q1.w, q1.x, q1.y, q1.z,
/// q2.w, q2.x, q2.y, q2.z]`.
///
/// This is not a standard octonion algebra: its conjugate negates the whole
/// second half, and its product does not keep the norm. Both conventions are
/// kept on purpose.
#[derive(Clone, Copy, Debug, Default, PartialEq, Eq)]
pub struct Octonion {
    pub q1: Quaternion,
    pub q2: Quaternion,
}

impl View for Octonion {
    type V = Oct;

    open spec fn view(&self) -> Oct {
        Oct { q1: self.q1@, q2: self.q2@ }
    }
}

/// An octonion is the one its model describes.
pub proof fn lemma_oct_of_view(o: Octonion)
    ensures
        oct_of(o@) == o,
{
    lemma_quat_of_view(o.q1);
    lemma_quat_of_view(o.q2);
}

/// Builds an octonion from two models that fit.
fn from_halves(q1: Quaternion, q2: Quaternion) -> (r: Octonion)
    requires
        q1 == quat_of(q1@),
        q2 == quat_of(q2@),
    ensures
        r == oct_of(r@),
        r.q1 == q1,
        r.q2 == q2,
{
    Octonion { q1, q2 }
}

impl Octonion {
    /// Splits eight components into `q1`, the first four, and `q2`, the last four.
    pub fn new(vec8: [i32; 8]) -> (r: Octonion)
        ensures
            r == split(vec8),
    {
        Octonion {
            q1: Quaternion::new([vec8[0], vec8[1], vec8[2], vec8[3]]),
            q2: Quaternion::new([vec8[4], vec8[5], vec8[6], vec8[7]]),
        }
    }

    /// The conjugate: `q1` conjugated, `q2` negated entirely.
    pub fn conj(&self) -> (r: Octonion)
        requires
            ofits(oconj(self@)),
        ensures
            r@ == oconj(self@),
    {
        Octonion { q1: self.q1.conj(), q2: self.q2.inv() }
    }

    /// Conjugates in place and hands the octonion back.
    pub fn conj_mut(&mut self) -> (r: &Octonion)
        requires
            ofits(oconj(old(self)@)),
        ensures
            final(self)@ == oconj(old(self)@),
            *r == *final(self),
    {
        self.q1.conj_mut();
        self.q2.inv_mut();
        self
    }

    /// The eight components, `q1` first.
    pub fn as_array(&self) -> (r: [i32; 8])
        ensures
            r == flat(*self),
    {
        [
            self.q1.val[0],
            self.q1.val[1],
            self.q1.val[2],
            self.q1.val[3],
            self.q2.val[0],
            self.q2.val[1],
            self.q2.val[2],
            self.q2.val[3],
        ]
    }

    /// `[1, 1, 1, 1, 1, 1, 1, 1]`: both halves are this library's quaternion unit.
    pub fn one() -> (r: Octonion)
        ensures
            r@ == (Oct { q1: qone(), q2: qone() }),
    {
        Octonion { q1: Quaternion::one(), q2: Quaternion::one() }
    }

    /// The zero octonion, identity of the sum.
    pub fn zero() -> (r: Octonion)
        ensures
            r@ == (Oct { q1: qzero(), q2: qzero() }),
    {
        Octonion { q1: Quaternion::zero(), q2: Quaternion::zero() }
    }

    /// Whether every component is zero.
    pub fn is_zero(&self) -> (r: bool)
        ensures
            r == (self.q1@ == qzero() && self.q2@ == qzero()),
    {
        self.q1.is_zero() && self.q2.is_zero()
    }

    /// Linear interpolation `self * (1 - t) + other * t`, by scalar multiplication
    /// and sum. `t` is not clamped.
    pub fn lerp(self, other: Octonion, t: i32) -> (r: Octonion)
        requires
            ofits(olerp(self@, other@, t as int)),
        ensures
            r@ == olerp(self@, other@, t as int),
    {
        let s: i128 = 1 - t as i128;
        let a = self.as_array();
        let b = other.as_array();
        let q1 = narrow(
            [
                lerp_component(a[0], b[0], s, t),
                lerp_component(a[1], b[1], s, t),
                lerp_component(a[2], b[2], s, t),
                lerp_component(a[3], b[3], s, t),
            ],
        );
        let q2 = narrow(
            [
                lerp_component(a[4], b[4], s, t),
                lerp_component(a[5], b[5], s, t),
                lerp_component(a[6], b[6], s, t),
                lerp_component(a[7], b[7], s, t),
            ],
        );
        Octonion { q1, q2 }
    }
}

/// `a * s + b * t`, widened.
fn lerp_component(a: i32, b: i32, s: i128, t: i32) -> (r: i128)
    requires
        -0x1_0000_0000 <= s <= 0x1_0000_0000,
    ensures
        r == a * s + b * t,
{
    proof {
        assert(-0x8000_0000_0000_0000 <= a * s <= 0x8000_0000_0000_0000) by (nonlinear_arith)
            requires
                i32::MIN <= a <= i32::MAX,
                -0x1_0000_0000 <= s <= 0x1_0000_0000,
        ;
        assert(-0x4000_0000_0000_0000 <= b * t <= 0x4000_0000_0000_0000) by (nonlinear_arith)
            requires
                i32::MIN <= b <= i32::MAX,
                i32::MIN <= t <= i32::MAX,
        ;
    }
    a as i128 * s + b as i128 * t as i128
}

/// The wide halves of the Cayley-Dickson product of two stored octonions.
fn wide_omul(a: Octonion, b: Octonion) -> (r: ([i128; 4], [i128; 4]))
    ensures
        wq(r.0) == omul(a@, b@).q1,
        wq(r.1) == omul(a@, b@).q2,
{
    let (a1, a2, b1, b2) = (widen(a.q1), widen(a.q2), widen(b.q1), widen(b.q2));
    let q1 = wide_sub(wide_prod(a1, b1), wide_prod(wide_conj(b2), a2));
    let q2 = wide_add(wide_prod(b2, a1), wide_prod(a2, wide_conj(b1)));
    (q1, q2)
}

impl Mul<Octonion> for Octonion {
    type Output = Octonion;

    /// The Cayley-Dickson product, operands in this exact order:
    /// `(a1 * b1 - conj(b2) * a2, b2 * a1 + a2 * conj(b1))`.
    fn mul(self, rhs: Octonion) -> (r: Octonion) {
        let (q1, q2) = wide_omul(self, rhs);
        from_halves(narrow(q1), narrow(q2))
    }
}

impl vstd::std_specs::ops::MulSpecImpl<Octonion> for Octonion {
    open spec fn obeys_mul_spec() -> bool {
        true
    }

    open spec fn mul_req(self, rhs: Octonion) -> bool {
        ofits(omul(self@, rhs@))
    }

    open spec fn mul_spec(self, rhs: Octonion) -> Octonion {
        oct_of(omul(self@, rhs@))
    }
}

impl Mul<Quaternion> for Octonion {
    type Output = Octonion;

    /// The product with a quaternion promoted to an octonion.
    fn mul(self, rhs: Quaternion) -> (r: Octonion) {
        self * Octonion::from(rhs)
    }
}

impl vstd::std_specs::ops::MulSpecImpl<Quaternion> for Octonion {
    open spec fn obeys_mul_spec() -> bool {
        true
    }

    open spec fn mul_req(self, rhs: Quaternion) -> bool {
        ofits(omul(self@, opromote(rhs@)))
    }

    open spec fn mul_spec(self, rhs: Quaternion) -> Octonion {
        oct_of(omul(self@, opromote(rhs@)))
    }
}

impl Mul<Octonion> for Quaternion {
    type Output = Quaternion;

    /// The product with the first half of the octonion; its second half is unused.
    fn mul(self, rhs: Octonion) -> (r: Quaternion) {
        self * rhs.q1
    }
}

impl vstd::std_specs::ops::MulSpecImpl<Octonion> for Quaternion {
    open spec fn obeys_mul_spec() -> bool {
        true
    }

    open spec fn mul_req(self, rhs: Octonion) -> bool {
        fits(qmul(self@, rhs.q1@))
    }

    open spec fn mul_spec(self, rhs: Octonion) -> Quaternion {
        quat_of(qmul(self@, rhs.q1@))
    }
}

impl Mul<i32> for Octonion {
    type Output = Octonion;

    /// Every component multiplied by `rhs`.
    fn mul(self, rhs: i32) -> (r: Octonion) {
        from_halves(self.q1 * rhs, self.q2 * rhs)
    }
}

impl vstd::std_specs::ops::MulSpecImpl<i32> for Octonion {
    open spec fn obeys_mul_spec() -> bool {
        true
    }

    open spec fn mul_req(self, rhs: i32) -> bool {
        ofits(oscale(self@, rhs as int))
    }

    open spec fn mul_spec(self, rhs: i32) -> Octonion {
        oct_of(oscale(self@, rhs as int))
    }
}

impl Add<i32> for Octonion {
    type Output = Octonion;

    /// `rhs` added to every component.
    fn add(self, rhs: i32) -> (r: Octonion) {
        from_halves(self.q1 + rhs, self.q2 + rhs)
    }
}

impl vstd::std_specs::ops::AddSpecImpl<i32> for Octonion {
    open spec fn obeys_add_spec() -> bool {
        true
    }

    open spec fn add_req(self, rhs: i32) -> bool {
        ofits(oshift(self@, rhs as int))
    }

    open spec fn add_spec(self, rhs: i32) -> Octonion {
        oct_of(oshift(self@, rhs as int))
    }
}

impl Add<Octonion> for Octonion {
    type Output = Octonion;

    /// Both halves added component-wise.
    fn add(self, rhs: Octonion) -> (r: Octonion) {
        from_halves(self.q1 + rhs.q1, self.q2 + rhs.q2)
    }
}

impl vstd::std_specs::ops::AddSpecImpl<Octonion> for Octonion {
    open spec fn obeys_add_spec() -> bool {
        true
    }

    open spec fn add_req(self, rhs: Octonion) -> bool {
        ofits(oadd(self@, rhs@))
    }

    open spec fn add_spec(self, rhs: Octonion) -> Octonion {
        oct_of(oadd(self@, rhs@))
    }
}

impl Sub<i32> for Octonion {
    type Output = Octonion;

    /// `rhs` subtracted from every component.
    fn sub(self, rhs: i32) -> (r: Octonion) {
        from_halves(self.q1 - rhs, self.q2 - rhs)
    }
}

impl vstd::std_specs::ops::SubSpecImpl<i32> for Octonion {
    open spec fn obeys_sub_spec() -> bool {
        true
    }

    open spec fn sub_req(self, rhs: i32) -> bool {
        ofits(oshift(self@, -(rhs as int)))
    }

    open spec fn sub_spec(self, rhs: i32) -> Octonion {
        oct_of(oshift(self@, -(rhs as int)))
    }
}

impl Sub<Octonion> for Octonion {
    type Output = Octonion;

    /// Both halves subtracted component-wise.
    fn sub(self, rhs: Octonion) -> (r: Octonion) {
        from_halves(self.q1 - rhs.q1, self.q2 - rhs.q2)
    }
}

impl vstd::std_specs::ops::SubSpecImpl<Octonion> for Octonion {
    open spec fn obeys_sub_spec() -> bool {
        true
    }

    open spec fn sub_req(self, rhs: Octonion) -> bool {
        ofits(osub(self@, rhs@))
    }

    open spec fn sub_spec(self, rhs: Octonion) -> Octonion {
        oct_of(osub(self@, rhs@))
    }
}

impl From<Quaternion> for Octonion {
    /// A quaternion promoted to an octonion: `q1` is the quaternion, `q2` is zero.
    fn from(q: Quaternion) -> (r: Octonion) {
        let r = Octonion { q1: q, q2: Quaternion::zero() };
        proof {
            lemma_oct_of_view(r);
        }
        r
    }
}

impl vstd::std_specs::convert::FromSpecImpl<Quaternion> for Octonion {
    open spec fn obeys_from_spec() -> bool {
        true
    }

    open spec fn from_spec(q: Quaternion) -> Octonion {
        oct_of(opromote(q@))
    }
}

impl From<(Quaternion, Quaternion)> for Octonion {
    /// An octonion made of two halves.
    fn from(q: (Quaternion, Quaternion)) -> (r: Octonion) {
        Octonion { q1: q.0, q2: q.1 }
    }
}

impl vstd::std_specs::convert::FromSpecImpl<(Quaternion, Quaternion)> for Octonion {
    open spec fn obeys_from_spec() -> bool {
        true
    }

    open spec fn from_spec(q: (Quaternion, Quaternion)) -> Octonion {
        Octonion { q1: q.0, q2: q.1 }
    }
}

} // verus!
