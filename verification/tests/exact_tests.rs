//! Scenarios for the algebraic laws, run through a 64-bit floating-point
//! scalar on values where every operation is exact, so the results are
//! checked with exact equality.

use dual_quaternion::scalar::Scalar;
use dual_quaternion::DualQuaternion;
use dual_quaternion::Quaternion;
use dual_quaternion::Vector3;

/// A 64-bit floating-point scalar for the algebra.
#[derive(Clone, Copy, Debug, PartialEq)]
struct G(f64);

impl Scalar for G {
    fn zero() -> G {
        G(0.0)
    }

    fn one() -> G {
        G(1.0)
    }

    fn two() -> G {
        G(2.0)
    }

    fn half(self) -> G {
        G(self.0 * 0.5)
    }

    fn add(self, other: G) -> G {
        G(self.0 + other.0)
    }

    fn mul(self, other: G) -> G {
        G(self.0 * other.0)
    }

    fn neg(self) -> G {
        G(-self.0)
    }

    fn sqrt(self) -> G {
        G(self.0.sqrt())
    }

    fn div(self, other: G) -> G {
        G(self.0 / other.0)
    }
}

fn quat_in(q: (f64, [f64; 3])) -> Quaternion<G> {
    (G(q.0), [G(q.1[0]), G(q.1[1]), G(q.1[2])])
}

fn quat_out(q: Quaternion<G>) -> (f64, [f64; 3]) {
    (q.0 .0, [q.1[0].0, q.1[1].0, q.1[2].0])
}

fn dq_in(real: (f64, [f64; 3]), dual: (f64, [f64; 3])) -> DualQuaternion<G> {
    (quat_in(real), quat_in(dual))
}

fn vec_in(v: [f64; 3]) -> Vector3<G> {
    [G(v[0]), G(v[1]), G(v[2])]
}

fn vec_out(v: Vector3<G>) -> [f64; 3] {
    [v[0].0, v[1].0, v[2].0]
}

/// Identity law: multiplying by the identity on either side changes
/// nothing, here on an arbitrary value that is no rigid transform.
#[test]
fn identity_law_exact() {
    let x = dq_in((1.0, [2.0, 3.0, 4.0]), (5.0, [6.0, 7.0, 8.0]));
    let left = dual_quaternion::mul(dual_quaternion::id(), x);
    let right = dual_quaternion::mul(x, dual_quaternion::id());
    assert_eq!(quat_out(left.0), (1.0, [2.0, 3.0, 4.0]));
    assert_eq!(quat_out(left.1), (5.0, [6.0, 7.0, 8.0]));
    assert_eq!(quat_out(right.0), (1.0, [2.0, 3.0, 4.0]));
    assert_eq!(quat_out(right.1), (5.0, [6.0, 7.0, 8.0]));
}

/// Round trip: a half-turn about the x axis (a unit quaternion with
/// integer components) and an even translation come back out exactly.
#[test]
fn round_trip_exact() {
    let rotation = quat_in((0.0, [1.0, 0.0, 0.0]));
    let translation = vec_in([2.0, 4.0, 6.0]);
    let dq = dual_quaternion::from_rotation_and_translation(rotation, translation);
    assert_eq!(quat_out(dual_quaternion::get_rotation(dq)), (0.0, [1.0, 0.0, 0.0]));
    assert_eq!(vec_out(dual_quaternion::get_translation(dq)), [2.0, 4.0, 6.0]);
}

/// Conjugate inverse: a rigid transform times its conjugate is the
/// identity transform, exactly on these inputs.
#[test]
fn conj_inverse_exact() {
    let rotation = quat_in((0.0, [1.0, 0.0, 0.0]));
    let translation = vec_in([2.0, 4.0, 6.0]);
    let dq = dual_quaternion::from_rotation_and_translation(rotation, translation);
    let prod = dual_quaternion::mul(dq, dual_quaternion::conj(dq));
    assert_eq!(quat_out(dual_quaternion::get_rotation(prod)), (1.0, [0.0, 0.0, 0.0]));
    assert_eq!(vec_out(dual_quaternion::get_translation(prod)), [0.0, 0.0, 0.0]);
}

/// Normalizing a value that already satisfies the rigid-transform
/// invariant changes nothing, and normalizing twice equals normalizing
/// once.
#[test]
fn normalize_idempotent_exact() {
    let satisfied = dq_in((1.0, [0.0, 0.0, 0.0]), (0.0, [5.0, 7.0, 9.0]));
    let n = dual_quaternion::normalize(satisfied);
    assert_eq!(quat_out(n.0), (1.0, [0.0, 0.0, 0.0]));
    assert_eq!(quat_out(n.1), (0.0, [5.0, 7.0, 9.0]));

    let skewed = dq_in((1.0, [0.0, 0.0, 0.0]), (3.0, [5.0, 7.0, 9.0]));
    let once = dual_quaternion::normalize(skewed);
    assert_eq!(quat_out(once.0), (1.0, [0.0, 0.0, 0.0]));
    assert_eq!(quat_out(once.1), (0.0, [5.0, 7.0, 9.0]));
    let twice = dual_quaternion::normalize(once);
    assert_eq!(quat_out(twice.0), quat_out(once.0));
    assert_eq!(quat_out(twice.1), quat_out(once.1));
}

/// Normalizing a value whose real part has length two rescales the real
/// part to unit length and corrects the dual part by the uncorrected
/// real-dual dot product.
#[test]
fn normalize_rescales_exact() {
    let dq = dq_in((2.0, [0.0, 0.0, 0.0]), (4.0, [6.0, 8.0, 10.0]));
    let n = dual_quaternion::normalize(dq);
    assert_eq!(quat_out(n.0), (1.0, [0.0, 0.0, 0.0]));
    assert_eq!(quat_out(n.1), (-14.0, [3.0, 4.0, 5.0]));
}

/// Addition is component-wise on both parts, scaling multiplies every
/// component, and the dot product reduces the real parts alone.
#[test]
fn add_scale_dot_exact() {
    let a = dq_in((1.0, [2.0, 3.0, 4.0]), (5.0, [6.0, 7.0, 8.0]));
    let b = dq_in((2.0, [1.0, 0.0, -1.0]), (1.0, [1.0, 1.0, 1.0]));

    let sum = dual_quaternion::add(a, b);
    assert_eq!(quat_out(sum.0), (3.0, [3.0, 3.0, 3.0]));
    assert_eq!(quat_out(sum.1), (6.0, [7.0, 8.0, 9.0]));

    let scaled = dual_quaternion::scale(a, G(2.5));
    assert_eq!(quat_out(scaled.0), (2.5, [5.0, 7.5, 10.0]));
    assert_eq!(quat_out(scaled.1), (12.5, [15.0, 17.5, 20.0]));

    assert_eq!(dual_quaternion::dot(a, a).0, 30.0);
    assert_eq!(dual_quaternion::dot(a, b).0, 0.0);
}

/// The conjugate negates the vector parts of both components and keeps
/// the scalar parts.
#[test]
fn conj_components_exact() {
    let a = dq_in((1.0, [2.0, 3.0, 4.0]), (5.0, [6.0, 7.0, 8.0]));
    let c = dual_quaternion::conj(a);
    assert_eq!(quat_out(c.0), (1.0, [-2.0, -3.0, -4.0]));
    assert_eq!(quat_out(c.1), (5.0, [-6.0, -7.0, -8.0]));
}

/// Translation-only composition: two translations through the identity
/// rotation compose by adding, exactly on even inputs.
#[test]
fn translation_composition_exact() {
    let one = dual_quaternion::from_rotation_and_translation(
        quat_in((1.0, [0.0, 0.0, 0.0])),
        vec_in([2.0, 4.0, -6.0]),
    );
    let other = dual_quaternion::from_rotation_and_translation(
        quat_in((1.0, [0.0, 0.0, 0.0])),
        vec_in([8.0, -4.0, 2.0]),
    );
    let composed = dual_quaternion::mul(one, other);
    assert_eq!(quat_out(dual_quaternion::get_rotation(composed)), (1.0, [0.0, 0.0, 0.0]));
    assert_eq!(vec_out(dual_quaternion::get_translation(composed)), [10.0, 0.0, -4.0]);
}
