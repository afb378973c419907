use vstd::prelude::*;

use std::ops::{Add, Div, Mul, Neg, Sub};
use vstd::math::abs;

verus! {

/// The mathematical model of a quaternion `[w, x, y, z]`: four unbounded integers.
pub ghost struct Quat {
    pub w: int,
    pub x: int,
    pub y: int,
    pub z: int,
}

/// Whether an integer can be stored as a component.
pub open spec fn in_i32(v: int) -> bool {
    i32::MIN <= v <= i32::MAX
}

/// Whether every component of a model can be stored.
pub open spec fn fits(q: Quat) -> bool {
    in_i32(q.w) && in_i32(q.x) && in_i32(q.y) && in_i32(q.z)
}

/// The Hamilton product.
pub open spec fn qmul(a: Quat, b: Quat) -> Quat {
    Quat {
        w: a.w * b.w - a.x * b.x - a.y * b.y - a.z * b.z,
        x: a.w * b.x + a.x * b.w + a.y * b.z - a.z * b.y,
        y: a.w * b.y - a.x * b.z + a.y * b.w + a.z * b.x,
        z: a.w * b.z + a.x * b.y - a.y * b.x + a.z * b.w,
    }
}

/// The conjugate: the imaginary parts negated, the scalar part kept.
pub open spec fn qconj(a: Quat) -> Quat {
    Quat { w: a.w, x: -a.x, y: -a.y, z: -a.z }
}

/// Every component negated.
pub open spec fn qneg(a: Quat) -> Quat {
    Quat { w: -a.w, x: -a.x, y: -a.y, z: -a.z }
}

/// Component-wise sum.
pub open spec fn qadd(a: Quat, b: Quat) -> Quat {
    Quat { w: a.w + b.w, x: a.x + b.x, y: a.y + b.y, z: a.z + b.z }
}

/// Component-wise difference.
pub open spec fn qsub(a: Quat, b: Quat) -> Quat {
    Quat { w: a.w - b.w, x: a.x - b.x, y: a.y - b.y, z: a.z - b.z }
}

/// Every component multiplied by a scalar.
pub open spec fn qscale(a: Quat, s: int) -> Quat {
    Quat { w: a.w * s, x: a.x * s, y: a.y * s, z: a.z * s }
}

/// A scalar added to every component.
pub open spec fn qshift(a: Quat, s: int) -> Quat {
    Quat { w: a.w + s, x: a.x + s, y: a.y + s, z: a.z + s }
}

/// Division that rounds toward zero, as Rust's integer `/` does.
pub open spec fn tdiv(a: int, b: int) -> int {
    if (a < 0) == (b < 0) {
        (abs(a) / abs(b)) as int
    } else {
        -(abs(a) / abs(b))
    }
}

/// Every component divided by a scalar, rounding toward zero.
pub open spec fn qdiv(a: Quat, s: int) -> Quat {
    Quat { w: tdiv(a.w, s), x: tdiv(a.x, s), y: tdiv(a.y, s), z: tdiv(a.z, s) }
}

/// The sum of the component-wise products.
pub open spec fn qdot(a: Quat, b: Quat) -> int {
    a.w * b.w + a.x * b.x + a.y * b.y + a.z * b.z
}

/// The sum of the components.
pub open spec fn qsum(a: Quat) -> int {
    a.w + a.x + a.y + a.z
}

/// The pure quaternion `[0, v.x, v.y, v.z]`.
pub open spec fn qpure(v: [i32; 3]) -> Quat {
    Quat { w: 0, x: v[0] as int, y: v[1] as int, z: v[2] as int }
}

/// The zero quaternion, identity of the sum.
pub open spec fn qzero() -> Quat {
    Quat { w: 0, x: 0, y: 0, z: 0 }
}

/// `[1, 1, 1, 1]`, the value this library names the multiplicative unit.
pub open spec fn qone() -> Quat {
    Quat { w: 1, x: 1, y: 1, z: 1 }
}

/// Whether `r` is the floor of the square root of `d`.
pub open spec fn is_isqrt(d: int, r: int) -> bool {
    0 <= r && r * r <= d < (r + 1) * (r + 1)
}

/// The sandwich product `r * p * conj(r)`, which rotates `p` by the rotor `r`.
pub open spec fn qsandwich(r: Quat, p: Quat) -> Quat {
    qmul(qmul(r, p), qconj(r))
}

/// The quaternion whose components are those of a model that fits.
pub open spec fn quat_of(q: Quat) -> Quaternion {
    Quaternion { val: [q.w as i32, q.x as i32, q.y as i32, q.z as i32] }
}

/// A quaternion `[w, x, y, z]`: a scalar part followed by three imaginary parts.
///
/// No normalisation is ever implied: a rotor must be normalised explicitly.
#[derive(Clone, Copy, Debug, Default, PartialEq, Eq)]
pub struct Quaternion {
    pub val: [i32; 4],
}

impl View for Quaternion {
    type V = Quat;

    open spec fn view(&self) -> Quat {
        Quat {
            w: self.val[0] as int,
            x: self.val[1] as int,
            y: self.val[2] as int,
            z: self.val[3] as int,
        }
    }
}

/// A quaternion is the one its model describes.
pub proof fn lemma_quat_of_view(q: Quaternion)
    ensures
        quat_of(q@) == q,
{
    assert(quat_of(q@).val =~= q.val);
}

/// The model of four wide components.
pub open spec fn wq(a: [i128; 4]) -> Quat {
    Quat { w: a[0] as int, x: a[1] as int, y: a[2] as int, z: a[3] as int }
}

/// Every component of the model lies within `-m..=m`.
pub open spec fn bounded(q: Quat, m: int) -> bool {
    -m <= q.w <= m && -m <= q.x <= m && -m <= q.y <= m && -m <= q.z <= m
}

/// The bound on the wide intermediate values of this library's products.
pub(crate) const WIDE: i128 = 0x10_0000_0000_0000_0000_0000_0000;

/// A quaternion's components, widened.
pub(crate) fn widen(q: Quaternion) -> (r: [i128; 4])
    ensures
        wq(r) == q@,
        bounded(wq(r), 0x8000_0000),
{
    [q.val[0] as i128, q.val[1] as i128, q.val[2] as i128, q.val[3] as i128]
}

/// Builds a quaternion from four wide components that fit.
pub(crate) fn narrow(a: [i128; 4]) -> (r: Quaternion)
    requires
        fits(wq(a)),
    ensures
        r@ == wq(a),
        r == quat_of(r@),
{
    Quaternion { val: [a[0] as i32, a[1] as i32, a[2] as i32, a[3] as i32] }
}

/// The conjugate of a wide quaternion.
pub(crate) fn wide_conj(a: [i128; 4]) -> (r: [i128; 4])
    requires
        bounded(wq(a), WIDE as int),
    ensures
        wq(r) == qconj(wq(a)),
{
    [a[0], -a[1], -a[2], -a[3]]
}

/// The component-wise sum of two wide quaternions.
pub(crate) fn wide_add(a: [i128; 4], b: [i128; 4]) -> (r: [i128; 4])
    requires
        bounded(wq(a), WIDE as int),
        bounded(wq(b), WIDE as int),
    ensures
        wq(r) == qadd(wq(a), wq(b)),
{
    [a[0] + b[0], a[1] + b[1], a[2] + b[2], a[3] + b[3]]
}

/// The component-wise difference of two wide quaternions.
pub(crate) fn wide_sub(a: [i128; 4], b: [i128; 4]) -> (r: [i128; 4])
    requires
        bounded(wq(a), WIDE as int),
        bounded(wq(b), WIDE as int),
    ensures
        wq(r) == qsub(wq(a), wq(b)),
{
    [a[0] - b[0], a[1] - b[1], a[2] - b[2], a[3] - b[3]]
}

/// One product term of a wide Hamilton product.
fn wide_term(x: i128, y: i128) -> (r: i128)
    requires
        -0x2_0000_0000_0000_0000 <= x <= 0x2_0000_0000_0000_0000,
        -0x1_0000_0000 <= y <= 0x1_0000_0000,
    ensures
        r == x * y,
        -0x2_0000_0000_0000_0000_0000_0000 <= r <= 0x2_0000_0000_0000_0000_0000_0000,
{
    proof {
        assert(-0x2_0000_0000_0000_0000_0000_0000 <= x * y <= 0x2_0000_0000_0000_0000_0000_0000)
            by (nonlinear_arith)
            requires
                -0x2_0000_0000_0000_0000 <= x <= 0x2_0000_0000_0000_0000,
                -0x1_0000_0000 <= y <= 0x1_0000_0000,
        ;
    }
    x * y
}

/// The Hamilton product of two wide quaternions, the right one of stored size.
pub(crate) fn wide_prod(a: [i128; 4], b: [i128; 4]) -> (r: [i128; 4])
    requires
        bounded(wq(a), 0x2_0000_0000_0000_0000),
        bounded(wq(b), 0x1_0000_0000),
    ensures
        wq(r) == qmul(wq(a), wq(b)),
        bounded(wq(r), WIDE as int),
{
    [
        wide_term(a[0], b[0]) - wide_term(a[1], b[1]) - wide_term(a[2], b[2]) - wide_term(a[3], b[3]),
        wide_term(a[0], b[1]) + wide_term(a[1], b[0]) + wide_term(a[2], b[3]) - wide_term(a[3], b[2]),
        wide_term(a[0], b[2]) - wide_term(a[1], b[3]) + wide_term(a[2], b[0]) + wide_term(a[3], b[1]),
        wide_term(a[0], b[3]) + wide_term(a[1], b[2]) - wide_term(a[2], b[1]) + wide_term(a[3], b[0]),
    ]
}

/// A product of two stored quaternions is within the bound of a left factor.
pub(crate) proof fn lemma_small_prod(a: Quat, b: Quat)
    requires
        bounded(a, 0x8000_0000),
        bounded(b, 0x8000_0000),
    ensures
        bounded(qmul(a, b), 0x2_0000_0000_0000_0000),
{
    let (aa, bb) = ([a.w, a.x, a.y, a.z], [b.w, b.x, b.y, b.z]);
    assert forall|i: int, j: int| 0 <= i < 4 && 0 <= j < 4 implies
        -0x4000_0000_0000_0000 <= #[trigger] (aa[i] * bb[j]) <= 0x4000_0000_0000_0000 by {
        lemma_term_bound(aa[i], bb[j]);
    }
    assert(aa[0] == a.w && aa[1] == a.x && aa[2] == a.y && aa[3] == a.z);
    assert(bb[0] == b.w && bb[1] == b.x && bb[2] == b.y && bb[3] == b.z);
}

/// A product of two stored components is at most `2^62` in size.
proof fn lemma_term_bound(x: int, y: int)
    requires
        -0x8000_0000 <= x <= 0x8000_0000,
        -0x8000_0000 <= y <= 0x8000_0000,
    ensures
        -0x4000_0000_0000_0000 <= x * y <= 0x4000_0000_0000_0000,
{
    assert(-0x4000_0000_0000_0000 <= x * y <= 0x4000_0000_0000_0000) by (nonlinear_arith)
        requires
            -0x8000_0000 <= x <= 0x8000_0000,
            -0x8000_0000 <= y <= 0x8000_0000,
    ;
}

/// `r * p * conj(r)`, computed wide so that only the result has to fit.
pub(crate) fn sandwich(r: Quaternion, p: Quaternion) -> (s: Quaternion)
    requires
        fits(qsandwich(r@, p@)),
    ensures
        s@ == qsandwich(r@, p@),
{
    let wr = widen(r);
    let wp = widen(p);
    proof {
        lemma_small_prod(r@, p@);
    }
    narrow(wide_prod(wide_prod(wr, wp), wide_conj(wr)))
}

/// The exact product of two components, widened.
fn wide_mul(a: i32, b: i32) -> (r: i128)
    ensures
        r == a as int * b as int,
        -0x4000_0000_0000_0000 <= r <= 0x4000_0000_0000_0000,
{
    proof {
        assert(-0x4000_0000_0000_0000 <= a as int * b as int <= 0x4000_0000_0000_0000)
            by (nonlinear_arith)
            requires
                i32::MIN <= a <= i32::MAX,
                i32::MIN <= b <= i32::MAX,
        ;
    }
    a as i128 * b as i128
}

/// The floor of the square root of `d`, by bisection.
fn isqrt(d: u64) -> (r: u64)
    ensures
        is_isqrt(d as int, r as int),
        r <= 0xffff_ffff,
{
    // invariant: lo * lo <= d < hi * hi
    let mut lo: u64 = 0;
    let mut hi: u64 = 0x1_0000_0000;
    proof {
        assert(hi as int * hi as int == 0x1_0000_0000_0000_0000) by (nonlinear_arith)
            requires
                hi == 0x1_0000_0000u64,
        ;
    }
    while lo + 1 < hi
        invariant
            0 <= lo < hi <= 0x1_0000_0000,
            lo as int * lo as int <= d as int,
            (d as int) < hi as int * hi as int,
        decreases hi - lo,
    {
        let mid: u64 = lo + (hi - lo) / 2;
        proof {
            assert(mid as int * mid as int <= 0x1_0000_0000_0000_0000) by (nonlinear_arith)
                requires
                    0 <= mid <= 0x1_0000_0000,
            ;
        }
        let sq: u128 = mid as u128 * mid as u128;
        if sq <= d as u128 {
            lo = mid;
        } else {
            hi = mid;
        }
    }
    lo
}

impl Quaternion {
    /// Builds a quaternion from its four components.
    pub fn new(i: [i32; 4]) -> (r: Quaternion)
        ensures
            r.val == i,
    {
        Quaternion { val: i }
    }

    /// Embeds a 3-vector as the pure quaternion `[0, v.x, v.y, v.z]`.
    pub fn fom_imag(i: [i32; 3]) -> (r: Quaternion)
        ensures
            r@ == qpure(i),
    {
        Quaternion { val: [0, i[0], i[1], i[2]] }
    }

    /// The three imaginary components, the scalar part dropped.
    pub fn imag(&self) -> (r: [i32; 3])
        ensures
            r == [self.val[1], self.val[2], self.val[3]],
    {
        [self.val[1], self.val[2], self.val[3]]
    }

    /// Builds a quaternion from the first four values of a slice.
    pub fn from_slice(inp: &[i32]) -> (r: Quaternion)
        requires
            inp@.len() >= 4,
        ensures
            r.val@ == inp@.subrange(0, 4),
    {
        let r = Quaternion { val: [inp[0], inp[1], inp[2], inp[3]] };
        assert(r.val@ =~= inp@.subrange(0, 4));
        r
    }

    /// The conjugate `[w, -x, -y, -z]`.
    pub fn conj(self) -> (r: Quaternion)
        requires
            fits(qconj(self@)),
        ensures
            r@ == qconj(self@),
    {
        Quaternion { val: [self.val[0], -self.val[1], -self.val[2], -self.val[3]] }
    }

    /// Every component negated, `[-w, -x, -y, -z]`.
    ///
    /// This is plain negation, not the multiplicative inverse: the library keeps
    /// this convention on purpose, and the octonion conjugate relies on it.
    pub fn inv(self) -> (r: Quaternion)
        requires
            fits(qneg(self@)),
        ensures
            r@ == qneg(self@),
    {
        Quaternion { val: [-self.val[0], -self.val[1], -self.val[2], -self.val[3]] }
    }

    /// Conjugates in place and hands the quaternion back.
    pub fn conj_mut(&mut self) -> (r: &Quaternion)
        requires
            fits(qconj(old(self)@)),
        ensures
            final(self)@ == qconj(old(self)@),
            *r == *final(self),
    {
        assert(forall|j: int| 1 <= j < 4 ==> self.val[j] != i32::MIN);
        let mut i: usize = 1;
        while i < 4
            invariant
                1 <= i <= 4,
                self.val[0] == old(self).val[0],
                forall|j: int| 1 <= j < 4 ==> old(self).val[j] != i32::MIN,
                forall|j: int| 1 <= j < i ==> self.val[j] == -old(self).val[j],
                forall|j: int| i <= j < 4 ==> self.val[j] == old(self).val[j],
            decreases 4 - i,
        {
            self.val[i] = -self.val[i];
            i = i + 1;
        }
        self
    }

    /// Negates every component in place and hands the quaternion back.
    pub fn inv_mut(&mut self) -> (r: &Quaternion)
        requires
            fits(qneg(old(self)@)),
        ensures
            final(self)@ == qneg(old(self)@),
            *r == *final(self),
    {
        assert(forall|j: int| 0 <= j < 4 ==> self.val[j] != i32::MIN);
        let mut i: usize = 0;
        while i < 4
            invariant
                0 <= i <= 4,
                forall|j: int| 0 <= j < 4 ==> old(self).val[j] != i32::MIN,
                forall|j: int| 0 <= j < i ==> self.val[j] == -old(self).val[j],
                forall|j: int| i <= j < 4 ==> self.val[j] == old(self).val[j],
            decreases 4 - i,
        {
            self.val[i] = -self.val[i];
            i = i + 1;
        }
        self
    }

    /// The sum of the squares of the components.
    pub open spec fn norm_sq(self) -> int {
        qdot(self@, self@)
    }

    /// The norm, rounded down: the floor of the square root of `dot(self, self)`.
    pub fn n(self) -> (r: i32)
        requires
            self.norm_sq() < 0x4000_0000_0000_0000,
        ensures
            is_isqrt(self.norm_sq(), r as int),
    {
        let a = self.val;
        let d = wide_mul(a[0], a[0]) + wide_mul(a[1], a[1]) + wide_mul(a[2], a[2]) + wide_mul(a[3], a[3]);
        proof {
            assert(0 <= d) by (nonlinear_arith)
                requires
                    d == a[0] as int * a[0] as int + a[1] as int * a[1] as int + a[2] as int * a[2] as int
                        + a[3] as int * a[3] as int,
            ;
        }
        let r = isqrt(d as u64);
        proof {
            assert(r < 0x8000_0000) by (nonlinear_arith)
                requires
                    r as int * r as int <= d,
                    d < 0x4000_0000_0000_0000,
                    0 <= r,
            ;
        }
        r as i32
    }

    /// The unit quaternion in the direction of `self`: each component divided
    /// by the norm, rounding toward zero. `None` when the norm is zero.
    pub fn u(self) -> (r: Option<Quaternion>)
        requires
            self.norm_sq() < 0x4000_0000_0000_0000,
        ensures
            r matches Some(q) <==> self@ != qzero(),
            r matches Some(q) ==> exists|k: int| is_isqrt(self.norm_sq(), k) && q@ == qdiv(self@, k),
    {
        let k = self.n();
        if k == 0 {
            proof {
                assert(self@ == qzero()) by (nonlinear_arith)
                    requires
                        self.norm_sq() < 1,
                        self.norm_sq() == self@.w * self@.w + self@.x * self@.x + self@.y * self@.y + self@.z * self@.z,
                ;
            }
            None
        } else {
            proof {
                if self@ == qzero() {
                    assert(self.norm_sq() == 0) by (nonlinear_arith)
                        requires
                            self@ == qzero(),
                            self.norm_sq() == self@.w * self@.w + self@.x * self@.x + self@.y * self@.y
                                + self@.z * self@.z,
                    ;
                    assert(k == 0) by (nonlinear_arith)
                        requires
                            k as int * k as int <= 0,
                    ;
                }
            }
            Some(self / k)
        }
    }

    /// Same as `u`.
    pub fn u_mut(self) -> (r: Option<Quaternion>)
        requires
            self.norm_sq() < 0x4000_0000_0000_0000,
        ensures
            r matches Some(q) <==> self@ != qzero(),
            r matches Some(q) ==> exists|k: int| is_isqrt(self.norm_sq(), k) && q@ == qdiv(self@, k),
    {
        self.u()
    }

    /// The four components as a vector.
    pub fn to_vec(&self) -> (r: Vec<i32>)
        ensures
            r@ == self.val@,
    {
        let r = vec![self.val[0], self.val[1], self.val[2], self.val[3]];
        assert(r@ =~= self.val@);
        r
    }

    /// The sum of the four components.
    pub fn sum(&self) -> (r: i32)
        requires
            in_i32(qsum(self@)),
        ensures
            r == qsum(self@),
    {
        (self.val[0] as i64 + self.val[1] as i64 + self.val[2] as i64 + self.val[3] as i64) as i32
    }

    /// The dot product: the sum of the component-wise products.
    pub fn dot(self, b: Quaternion) -> (r: i32)
        requires
            in_i32(qdot(self@, b@)),
        ensures
            r == qdot(self@, b@),
    {
        let a = self.val;
        let b = b.val;
        (wide_mul(a[0], b[0]) + wide_mul(a[1], b[1]) + wide_mul(a[2], b[2]) + wide_mul(a[3], b[3])) as i32
    }

    /// `[1, 1, 1, 1]`, the multiplicative unit of this library's convention.
    pub fn one() -> (r: Quaternion)
        ensures
            r@ == qone(),
    {
        Quaternion { val: [1, 1, 1, 1] }
    }

    /// `[0, 0, 0, 0]`, the identity of the sum.
    pub fn zero() -> (r: Quaternion)
        ensures
            r@ == qzero(),
    {
        Quaternion { val: [0, 0, 0, 0] }
    }

    /// Whether every component is zero.
    pub fn is_zero(&self) -> (r: bool)
        ensures
            r == (self@ == qzero()),
    {
        self.val[0] == 0 && self.val[1] == 0 && self.val[2] == 0 && self.val[3] == 0
    }
}

impl Mul<Quaternion> for Quaternion {
    type Output = Quaternion;

    /// The Hamilton product `self * rhs`.
    fn mul(self, rhs: Quaternion) -> (r: Quaternion) {
        narrow(wide_prod(widen(self), widen(rhs)))
    }
}

impl vstd::std_specs::ops::MulSpecImpl<Quaternion> for Quaternion {
    open spec fn obeys_mul_spec() -> bool {
        true
    }

    open spec fn mul_req(self, rhs: Quaternion) -> bool {
        fits(qmul(self@, rhs@))
    }

    open spec fn mul_spec(self, rhs: Quaternion) -> Quaternion {
        quat_of(qmul(self@, rhs@))
    }
}

impl Mul<i32> for Quaternion {
    type Output = Quaternion;

    /// Every component multiplied by `rhs`.
    fn mul(self, rhs: i32) -> (r: Quaternion) {
        let a = self.val;
        narrow([wide_mul(a[0], rhs), wide_mul(a[1], rhs), wide_mul(a[2], rhs), wide_mul(a[3], rhs)])
    }
}

impl vstd::std_specs::ops::MulSpecImpl<i32> for Quaternion {
    open spec fn obeys_mul_spec() -> bool {
        true
    }

    open spec fn mul_req(self, rhs: i32) -> bool {
        fits(qscale(self@, rhs as int))
    }

    open spec fn mul_spec(self, rhs: i32) -> Quaternion {
        quat_of(qscale(self@, rhs as int))
    }
}

impl Add<i32> for Quaternion {
    type Output = Quaternion;

    /// `rhs` added to every component.
    fn add(self, rhs: i32) -> (r: Quaternion) {
        let a = self.val;
        let s = rhs as i128;
        narrow([a[0] as i128 + s, a[1] as i128 + s, a[2] as i128 + s, a[3] as i128 + s])
    }
}

impl vstd::std_specs::ops::AddSpecImpl<i32> for Quaternion {
    open spec fn obeys_add_spec() -> bool {
        true
    }

    open spec fn add_req(self, rhs: i32) -> bool {
        fits(qshift(self@, rhs as int))
    }

    open spec fn add_spec(self, rhs: i32) -> Quaternion {
        quat_of(qshift(self@, rhs as int))
    }
}

impl Add<Quaternion> for Quaternion {
    type Output = Quaternion;

    /// Component-wise sum.
    fn add(self, rhs: Quaternion) -> (r: Quaternion) {
        narrow(wide_add(widen(self), widen(rhs)))
    }
}

impl vstd::std_specs::ops::AddSpecImpl<Quaternion> for Quaternion {
    open spec fn obeys_add_spec() -> bool {
        true
    }

    open spec fn add_req(self, rhs: Quaternion) -> bool {
        fits(qadd(self@, rhs@))
    }

    open spec fn add_spec(self, rhs: Quaternion) -> Quaternion {
        quat_of(qadd(self@, rhs@))
    }
}

impl Sub<i32> for Quaternion {
    type Output = Quaternion;

    /// `rhs` subtracted from every component.
    fn sub(self, rhs: i32) -> (r: Quaternion) {
        let a = self.val;
        let s = rhs as i128;
        narrow([a[0] as i128 - s, a[1] as i128 - s, a[2] as i128 - s, a[3] as i128 - s])
    }
}

impl vstd::std_specs::ops::SubSpecImpl<i32> for Quaternion {
    open spec fn obeys_sub_spec() -> bool {
        true
    }

    open spec fn sub_req(self, rhs: i32) -> bool {
        fits(qshift(self@, -(rhs as int)))
    }

    open spec fn sub_spec(self, rhs: i32) -> Quaternion {
        quat_of(qshift(self@, -(rhs as int)))
    }
}

impl Sub<Quaternion> for Quaternion {
    type Output = Quaternion;

    /// Component-wise difference.
    fn sub(self, rhs: Quaternion) -> (r: Quaternion) {
        narrow(wide_sub(widen(self), widen(rhs)))
    }
}

impl vstd::std_specs::ops::SubSpecImpl<Quaternion> for Quaternion {
    open spec fn obeys_sub_spec() -> bool {
        true
    }

    open spec fn sub_req(self, rhs: Quaternion) -> bool {
        fits(qsub(self@, rhs@))
    }

    open spec fn sub_spec(self, rhs: Quaternion) -> Quaternion {
        quat_of(qsub(self@, rhs@))
    }
}

/// `a / b` rounding toward zero, for a divisor that is not zero.
fn trunc_div(a: i32, b: i32) -> (r: i128)
    requires
        b != 0,
    ensures
        r == tdiv(a as int, b as int),
        -0x8000_0000 <= r <= 0x8000_0000,
{
    let na: i128 = if a < 0 { -(a as i128) } else { a as i128 };
    let nb: i128 = if b < 0 { -(b as i128) } else { b as i128 };
    let q: i128 = na / nb;
    proof {
        assert(0 <= q <= na) by (nonlinear_arith)
            requires
                0 <= na,
                1 <= nb,
                q == na / nb,
        ;
    }
    if (a < 0) == (b < 0) {
        q
    } else {
        -q
    }
}

impl Div<i32> for Quaternion {
    type Output = Quaternion;

    /// Every component divided by `rhs`, rounding toward zero.
    fn div(self, rhs: i32) -> (r: Quaternion) {
        let a = self.val;
        narrow([trunc_div(a[0], rhs), trunc_div(a[1], rhs), trunc_div(a[2], rhs), trunc_div(a[3], rhs)])
    }
}

impl vstd::std_specs::ops::DivSpecImpl<i32> for Quaternion {
    open spec fn obeys_div_spec() -> bool {
        true
    }

    open spec fn div_req(self, rhs: i32) -> bool {
        rhs != 0 && fits(qdiv(self@, rhs as int))
    }

    open spec fn div_spec(self, rhs: i32) -> Quaternion {
        quat_of(qdiv(self@, rhs as int))
    }
}

impl Neg for Quaternion {
    type Output = Quaternion;

    /// Every component negated.
    fn neg(self) -> (r: Quaternion) {
        let r = self.inv();
        proof {
            lemma_quat_of_view(r);
        }
        r
    }
}

impl vstd::std_specs::ops::NegSpecImpl for Quaternion {
    open spec fn obeys_neg_spec() -> bool {
        true
    }

    open spec fn neg_req(self) -> bool {
        fits(qneg(self@))
    }

    open spec fn neg_spec(self) -> Quaternion {
        quat_of(qneg(self@))
    }
}

} // verus!
