//! A type-agnostic dual-quaternion algebra.
//!
//! A dual-quaternion is a pair of quaternions, `real` and `dual`, jointly
//! encoding a rigid transform: `real` carries the rotation and `dual`,
//! entangled with `real`, carries the translation. The library is generic
//! over the scalar type through the [`scalar::Scalar`] capability, and every
//! operation's contract states the exact value of its result over the
//! scalars' exact values; the algebraic laws of the transform algebra are
//! proved in [`laws`].

use vstd::prelude::*;

mod quat;
pub mod laws;
pub mod scalar;

use crate::quat::q_add;
use crate::quat::q_conj;
use crate::quat::q_dot;
use crate::quat::q_half;
use crate::quat::q_identity;
use crate::quat::q_mul;
use crate::quat::q_pure;
use crate::quat::q_scale;
use crate::quat::q_vec;
use crate::quat::q_zero;
use crate::quat::quat_add;
use crate::quat::quat_conj;
use crate::quat::quat_dot;
use crate::quat::quat_half;
use crate::quat::quat_mul;
use crate::quat::quat_scale;
use crate::quat::qv;
use crate::quat::vv;
use crate::quat::QuatV;
use crate::quat::Vec3V;
use crate::scalar::Scalar;

verus! {

/// A quaternion: a scalar part and a three-component vector part.
pub type Quaternion<T> = (T, [T; 3]);

/// A three-component vector.
pub type Vector3<T> = [T; 3];

/// A dual-quaternion: a real component and a dual component, which together
/// can represent both a rotation and a translation.
pub type DualQuaternion<T> = (Quaternion<T>, Quaternion<T>);

/// The exact value of a dual-quaternion: the exact values of its two parts.
pub ghost struct DualV {
    pub real: QuatV,
    pub dual: QuatV,
}

/// The exact value of a dual-quaternion `(real, dual)`.
pub open spec fn dqv<T: Scalar>(q: DualQuaternion<T>) -> DualV {
    DualV { real: qv(q.0), dual: qv(q.1) }
}

/// The identity dual-quaternion: identity rotation, zero translation.
pub open spec fn dq_identity() -> DualV {
    DualV { real: q_identity(), dual: q_zero() }
}

/// What building a dual-quaternion from a rotation and a translation yields:
/// the rotation itself as the real part, and half the product of the pure
/// quaternion `(0, translation)` with the rotation as the dual part.
pub open spec fn dq_from(rotation: QuatV, translation: Vec3V) -> DualV {
    DualV { real: rotation, dual: q_half(q_mul(q_pure(translation), rotation)) }
}

/// Component-wise sum of two dual-quaternions.
pub open spec fn dq_add(a: DualV, b: DualV) -> DualV {
    DualV { real: q_add(a.real, b.real), dual: q_add(a.dual, b.dual) }
}

/// The dual-quaternion product: real parts multiply as quaternions, and the
/// dual part collects the two mixed real-by-dual products.
pub open spec fn dq_mul(a: DualV, b: DualV) -> DualV {
    DualV {
        real: q_mul(a.real, b.real),
        dual: q_add(q_mul(a.real, b.dual), q_mul(a.dual, b.real)),
    }
}

/// Every scalar component of both parts scaled by `k`.
pub open spec fn dq_scale(a: DualV, k: int) -> DualV {
    DualV { real: q_scale(a.real, k), dual: q_scale(a.dual, k) }
}

/// Both parts quaternion-conjugated.
pub open spec fn dq_conj(a: DualV) -> DualV {
    DualV { real: q_conj(a.real), dual: q_conj(a.dual) }
}

/// What normalizing a dual-quaternion whose real part already has unit
/// length yields: the real part unchanged, and the component of the dual
/// part along the real part removed.
pub open spec fn dq_normalize_unit(a: DualV) -> DualV {
    DualV {
        real: a.real,
        dual: q_add(a.dual, q_scale(a.real, -q_dot(a.real, a.dual))),
    }
}

/// The translation a dual-quaternion encodes: the vector part of twice the
/// dual part multiplied by the conjugate of the real part.
pub open spec fn dq_translation(a: DualV) -> Vec3V {
    q_vec(q_mul(q_scale(a.dual, 2), q_conj(a.real)))
}

/// Constructs the identity dual-quaternion, representing no rotation or
/// translation.
pub fn id<T: Scalar>() -> (r: DualQuaternion<T>)
    ensures
        dqv(r) == dq_identity(),
{
    let one = T::one();
    let zero = T::zero();
    ((one, [zero, zero, zero]), (zero, [zero, zero, zero]))
}

/// Constructs a dual-quaternion from separate rotation and translation
/// components: the rotation becomes the real part, and the dual part is
/// half the product of the pure quaternion `(0, translation)` with the
/// rotation. This is the canonical embedding of ordinary transform data
/// into the algebra.
pub fn from_rotation_and_translation<T: Scalar>(
    rotation: Quaternion<T>,
    translation: Vector3<T>,
) -> (r: DualQuaternion<T>)
    ensures
        dqv(r) == dq_from(qv(rotation), vv(translation)),
{
    let zero = T::zero();
    let pure = (zero, translation);
    (rotation, quat_half(quat_mul(pure, rotation)))
}

/// Multiplies two dual-quaternions, composing the transforms they encode:
/// the real part is the quaternion product of the real parts, and the dual
/// part is the sum of the two mixed real-by-dual products. Under the
/// quaternion sandwich convention for rotations, applying `mul(a, b)` to a
/// point is applying `b` first and then `a`.
pub fn mul<T: Scalar>(a: DualQuaternion<T>, b: DualQuaternion<T>) -> (r: DualQuaternion<T>)
    ensures
        dqv(r) == dq_mul(dqv(a), dqv(b)),
{
    (quat_mul(a.0, b.0), quat_add(quat_mul(a.0, b.1), quat_mul(a.1, b.0)))
}

/// Adds two dual-quaternions component-wise. The sum of two rigid-transform
/// dual-quaternions is in general not itself a rigid transform; addition
/// exists for blending.
pub fn add<T: Scalar>(a: DualQuaternion<T>, b: DualQuaternion<T>) -> (r: DualQuaternion<T>)
    ensures
        dqv(r) == dq_add(dqv(a), dqv(b)),
{
    (quat_add(a.0, b.0), quat_add(a.1, b.1))
}

/// Scales a dual-quaternion (element-wise) by a scalar. Does not preserve
/// unit length of the real part except for a unit factor.
pub fn scale<T: Scalar>(q: DualQuaternion<T>, t: T) -> (r: DualQuaternion<T>)
    ensures
        dqv(r) == dq_scale(dqv(q), t.v()),
{
    (quat_scale(q.0, t), quat_scale(q.1, t))
}

/// Returns the dual-quaternion conjugate: both parts quaternion-conjugated.
/// For a rigid transform (unit real part) this is its inverse under
/// multiplication.
pub fn conj<T: Scalar>(q: DualQuaternion<T>) -> (r: DualQuaternion<T>)
    ensures
        dqv(r) == dq_conj(dqv(q)),
{
    (quat_conj(q.0), quat_conj(q.1))
}

/// Dot product of two dual-quaternions: deliberately the dot product of the
/// real parts alone; the dual parts do not enter it.
pub fn dot<T: Scalar>(a: DualQuaternion<T>, b: DualQuaternion<T>) -> (r: T)
    ensures
        r.v() == q_dot(dqv(a).real, dqv(b).real),
{
    quat_dot(a.0, b.0)
}

/// Normalizes a dual-quaternion: rescales the real part by the reciprocal
/// of its length and removes the first-order component of the dual part
/// along the real part. The real part must not be degenerate: its dot
/// product with itself must be non-zero. The contract pins the result on
/// the inputs where the operation is exact, namely a real part that already
/// has unit length; there the real part is unchanged and only the dual
/// part's component along it is removed.
pub fn normalize<T: Scalar>(q: DualQuaternion<T>) -> (r: DualQuaternion<T>)
    requires
        q_dot(dqv(q).real, dqv(q).real) != 0,
    ensures
        q_dot(dqv(q).real, dqv(q).real) == 1 ==> dqv(r) == dq_normalize_unit(dqv(q)),
{
    let d = dot(q, q);
    proof {
        let m = dqv(q).real;
        assert(m.w * m.w + m.x * m.x + m.y * m.y + m.z * m.z >= 0) by (nonlinear_arith);
    }
    let s = d.sqrt();
    let k = T::one().div(s);
    let c = quat_dot(q.0, q.1);
    let real_part = quat_scale(q.0, k);
    let dual_part = quat_add(quat_scale(q.1, k), quat_scale(q.0, c.neg()));
    proof {
        let m = dqv(q);
        if q_dot(m.real, m.real) == 1 {
            assert(s.v() == 1);
            assert(k.v() == 1int / 1int);
            assert(k.v() == 1);
            assert(m.real.w * 1 == m.real.w && m.real.x * 1 == m.real.x && m.real.y * 1
                == m.real.y && m.real.z * 1 == m.real.z) by (nonlinear_arith);
            assert(m.dual.w * 1 == m.dual.w && m.dual.x * 1 == m.dual.x && m.dual.y * 1
                == m.dual.y && m.dual.z * 1 == m.dual.z) by (nonlinear_arith);
        }
    }
    (real_part, dual_part)
}

/// Extracts the rotation component of a dual-quaternion: its real part,
/// unchanged.
pub fn get_rotation<T: Scalar>(q: DualQuaternion<T>) -> (r: Quaternion<T>)
    ensures
        qv(r) == dqv(q).real,
{
    q.0
}

/// Extracts the translation component of a dual-quaternion: the vector part
/// of twice the dual part multiplied by the conjugate of the real part.
/// This inverts the translation half of [`from_rotation_and_translation`]
/// exactly when the real part has unit length.
pub fn get_translation<T: Scalar>(q: DualQuaternion<T>) -> (r: Vector3<T>)
    ensures
        vv(r) == dq_translation(dqv(q)),
{
    let two = T::two();
    let t = quat_mul(quat_scale(q.1, two), quat_conj(q.0));
    t.1
}

} // verus!
