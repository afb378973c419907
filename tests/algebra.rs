use hatch_math::{Octonion, Quaternion};

#[test]
fn quart() {
    let q1 = Quaternion::new([1, 2, 3, 6]);
    let q2 = Quaternion::new([0, 1, 0, 0]);
    let qm = Quaternion::new([-2, 1, 6, -3]);
    assert_eq!(q1 * q2, qm);
    assert_eq!(q1.conj() * q2.conj(), (q2 * q1).conj());
}

#[test]
fn octon() {
    let o1 = Octonion::new([2, 4, 6, 8, 10, 12, 14, 16]);
    let o2 = Octonion::new([15, 13, 11, 9, 7, 5, 3, 1]);
    let om = Octonion::new([-348, 52, 44, 36, 572, 156, 12, 276]);
    assert_eq!(o1 * o2, om);
    assert_eq!(o1 * o1.conj(), o1.conj() * o1);
}

#[test]
fn it_works() {
    assert_eq!(
        Octonion::new([1, 1, 1, 1, 1, 1, 1, 1]) * Octonion::new([1, 1, 1, 1, 1, 1, 1, 1]),
        Octonion::new([-6, 2, 2, 2, 2, 2, 2, 2])
    );
}

#[test]
fn hamilton_units() {
    let i = Quaternion::new([0, 1, 0, 0]);
    let j = Quaternion::new([0, 0, 1, 0]);
    let k = Quaternion::new([0, 0, 0, 1]);
    assert_eq!(i * j, k);
    assert_eq!(j * i, Quaternion::new([0, 0, 0, -1]));
    assert_eq!(i * i, Quaternion::new([-1, 0, 0, 0]));
}

#[test]
fn conj_reverses_a_product() {
    let a = Quaternion::new([3, -1, 4, 1]);
    let b = Quaternion::new([-5, 9, 2, -6]);
    assert_eq!(a.conj() * b.conj(), (b * a).conj());
    assert_ne!(a * b, b * a);
}

#[test]
fn conj_and_inv() {
    let q = Quaternion::new([1, -2, 3, -4]);
    assert_eq!(q.conj(), Quaternion::new([1, 2, -3, 4]));
    assert_eq!(q.inv(), Quaternion::new([-1, 2, -3, 4]));
    assert_eq!(-q, q.inv());
    let mut c = q;
    c.conj_mut();
    assert_eq!(c, q.conj());
    let mut n = q;
    n.inv_mut();
    assert_eq!(n, q.inv());
}

#[test]
fn imaginary_parts() {
    let q = Quaternion::fom_imag([4, 5, 6]);
    assert_eq!(q, Quaternion::new([0, 4, 5, 6]));
    assert_eq!(Quaternion::new([9, 4, 5, 6]).imag(), [4, 5, 6]);
}

#[test]
fn from_slice_takes_first_four() {
    assert_eq!(Quaternion::from_slice(&[1, 2, 3, 4]), Quaternion::new([1, 2, 3, 4]));
    assert_eq!(Quaternion::from_slice(&[7, 8, 9, 10, 11, 12]), Quaternion::new([7, 8, 9, 10]));
}

#[test]
fn scalar_operations() {
    let q = Quaternion::new([1, -2, 3, 0]);
    assert_eq!(q * 3, Quaternion::new([3, -6, 9, 0]));
    assert_eq!(q + 2, Quaternion::new([3, 0, 5, 2]));
    assert_eq!(q - 2, Quaternion::new([-1, -4, 1, -2]));
    assert_eq!(q + Quaternion::new([1, 1, 1, 1]), Quaternion::new([2, -1, 4, 1]));
    assert_eq!(q - Quaternion::new([1, 1, 1, 1]), Quaternion::new([0, -3, 2, -1]));
}

#[test]
fn division_rounds_toward_zero() {
    let q = Quaternion::new([-7, 7, 0, 3]);
    assert_eq!(q / 2, Quaternion::new([-3, 3, 0, 1]));
    assert_eq!(q / -2, Quaternion::new([3, -3, 0, -1]));
}

#[test]
fn dot_sum_and_vec() {
    let a = Quaternion::new([1, 2, 3, 4]);
    let b = Quaternion::new([5, -6, 7, -8]);
    assert_eq!(a.dot(b), 5 - 12 + 21 - 32);
    assert_eq!(a.sum(), 10);
    assert_eq!(a.to_vec(), vec![1, 2, 3, 4]);
}

#[test]
fn norm_is_rounded_down() {
    assert_eq!(Quaternion::new([3, 4, 0, 0]).n(), 5);
    assert_eq!(Quaternion::new([1, 2, 3, 4]).n(), 5);
    assert_eq!(Quaternion::new([1, 1, 1, 1]).n(), 2);
    assert_eq!(Quaternion::zero().n(), 0);
    assert_eq!(Quaternion::new([i32::MAX, 0, 0, 0]).n(), i32::MAX);
    assert_eq!(Quaternion::new([-46341, 0, 0, 0]).n(), 46341);
}

#[test]
fn unit_and_zero_norm() {
    assert_eq!(Quaternion::new([0, 10, 0, 0]).u(), Some(Quaternion::new([0, 1, 0, 0])));
    assert_eq!(Quaternion::new([-6, 8, 0, 0]).u(), Some(Quaternion::new([0, 0, 0, 0])));
    assert_eq!(Quaternion::new([0, 0, -4, 0]).u_mut(), Some(Quaternion::new([0, 0, -1, 0])));
    assert_eq!(Quaternion::zero().u(), None);
    assert_eq!(Quaternion::zero().u_mut(), None);
}

#[test]
fn identities_of_this_convention() {
    assert_eq!(Quaternion::one(), Quaternion::new([1, 1, 1, 1]));
    assert_eq!(Quaternion::zero(), Quaternion::new([0, 0, 0, 0]));
    assert!(Quaternion::zero().is_zero());
    assert!(!Quaternion::new([0, 0, 1, 0]).is_zero());
    assert_eq!(Octonion::one().as_array(), [1; 8]);
    assert_eq!(Octonion::zero().as_array(), [0; 8]);
    assert!(Octonion::zero().is_zero());
    assert!(!Octonion::one().is_zero());
}

#[test]
fn octonion_conj_negates_second_half() {
    let o = Octonion::new([1, 2, 3, 4, 5, 6, 7, 8]);
    assert_eq!(o.conj(), Octonion::new([1, -2, -3, -4, -5, -6, -7, -8]));
    let mut m = o;
    m.conj_mut();
    assert_eq!(m, o.conj());
}

#[test]
fn octonion_commutes_with_conj() {
    let o = Octonion::new([3, -1, 4, 1, -5, 9, 2, -6]);
    assert_eq!(o * o.conj(), o.conj() * o);
    let p = o * o.conj();
    assert_eq!(p.q2, Quaternion::zero());
}

#[test]
fn octonion_round_trip() {
    let o = Octonion::new([9, -8, 7, -6, 5, -4, 3, -2]);
    assert_eq!(Octonion::new(o.as_array()), o);
    assert_eq!(o.as_array(), [9, -8, 7, -6, 5, -4, 3, -2]);
}

#[test]
fn octonion_scalar_and_sum() {
    let a = Octonion::new([1, 2, 3, 4, 5, 6, 7, 8]);
    let b = Octonion::new([8, 7, 6, 5, 4, 3, 2, 1]);
    assert_eq!(a + b, Octonion::new([9; 8]));
    assert_eq!(a - b, Octonion::new([-7, -5, -3, -1, 1, 3, 5, 7]));
    assert_eq!(a * 2, Octonion::new([2, 4, 6, 8, 10, 12, 14, 16]));
    assert_eq!(a + 1, Octonion::new([2, 3, 4, 5, 6, 7, 8, 9]));
    assert_eq!(a - 1, Octonion::new([0, 1, 2, 3, 4, 5, 6, 7]));
}

#[test]
fn octonion_lerp() {
    let a = Octonion::new([1, 2, 3, 4, 5, 6, 7, 8]);
    let b = Octonion::new([-3, 0, 3, 6, 9, 12, 15, 18]);
    assert_eq!(a.lerp(b, 0), a);
    assert_eq!(a.lerp(b, 1), b);
    assert_eq!(a.lerp(b, 2), Octonion::new([-7, -2, 3, 8, 13, 18, 23, 28]));
    assert_eq!(a.lerp(b, -1), Octonion::new([5, 4, 3, 2, 1, 0, -1, -2]));
}

#[test]
fn octonion_conversions() {
    let q = Quaternion::new([1, 2, 3, 4]);
    let r = Quaternion::new([5, 6, 7, 8]);
    assert_eq!(Octonion::from(q), Octonion::new([1, 2, 3, 4, 0, 0, 0, 0]));
    assert_eq!(Octonion::from((q, r)), Octonion::new([1, 2, 3, 4, 5, 6, 7, 8]));
    let o = Octonion::new([0, 1, 0, 0, 0, 0, 1, 0]);
    assert_eq!(o * q, o * Octonion::from(q));
    assert_eq!(q * o, q * o.q1);
}
