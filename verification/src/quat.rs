use vstd::prelude::*;

use crate::scalar::Scalar;
use crate::Quaternion;
use crate::Vector3;

verus! {

/// The exact value of a quaternion: its scalar part `w` and vector part
/// `(x, y, z)`, each taken at the exact value of the scalar that carries it.
pub ghost struct QuatV {
    pub w: int,
    pub x: int,
    pub y: int,
    pub z: int,
}

/// The exact value of a three-vector.
pub ghost struct Vec3V {
    pub x: int,
    pub y: int,
    pub z: int,
}

/// The exact value of a quaternion `(w, [x, y, z])`.
pub open spec fn qv<T: Scalar>(q: Quaternion<T>) -> QuatV {
    QuatV { w: q.0.v(), x: q.1[0].v(), y: q.1[1].v(), z: q.1[2].v() }
}

/// The exact value of a vector `[x, y, z]`.
pub open spec fn vv<T: Scalar>(t: Vector3<T>) -> Vec3V {
    Vec3V { x: t[0].v(), y: t[1].v(), z: t[2].v() }
}

/// The zero quaternion.
pub open spec fn q_zero() -> QuatV {
    QuatV { w: 0, x: 0, y: 0, z: 0 }
}

/// The identity quaternion: scalar part one, vector part zero.
pub open spec fn q_identity() -> QuatV {
    QuatV { w: 1, x: 0, y: 0, z: 0 }
}

/// A pure quaternion: zero scalar part, the given vector part.
pub open spec fn q_pure(t: Vec3V) -> QuatV {
    QuatV { w: 0, x: t.x, y: t.y, z: t.z }
}

/// The vector part of a quaternion.
pub open spec fn q_vec(a: QuatV) -> Vec3V {
    Vec3V { x: a.x, y: a.y, z: a.z }
}

/// Component-wise quaternion addition.
pub open spec fn q_add(a: QuatV, b: QuatV) -> QuatV {
    QuatV { w: a.w + b.w, x: a.x + b.x, y: a.y + b.y, z: a.z + b.z }
}

/// The Hamilton product: scalar parts multiply minus the dot of the vector
/// parts; vector part is the two scalar-vector products plus the cross
/// product of the vector parts.
pub open spec fn q_mul(a: QuatV, b: QuatV) -> QuatV {
    QuatV {
        w: a.w * b.w - a.x * b.x - a.y * b.y - a.z * b.z,
        x: a.w * b.x + b.w * a.x + a.y * b.z - a.z * b.y,
        y: a.w * b.y + b.w * a.y + a.z * b.x - a.x * b.z,
        z: a.w * b.z + b.w * a.z + a.x * b.y - a.y * b.x,
    }
}

/// Every component scaled by `k`.
pub open spec fn q_scale(a: QuatV, k: int) -> QuatV {
    QuatV { w: a.w * k, x: a.x * k, y: a.y * k, z: a.z * k }
}

/// Every component halved (Euclidean division, exact on even components).
pub open spec fn q_half(a: QuatV) -> QuatV {
    QuatV { w: a.w / 2, x: a.x / 2, y: a.y / 2, z: a.z / 2 }
}

/// The quaternion conjugate: the vector part negated.
pub open spec fn q_conj(a: QuatV) -> QuatV {
    QuatV { w: a.w, x: -a.x, y: -a.y, z: -a.z }
}

/// Whether every component of a quaternion is even, so that halving it is
/// exact.
pub open spec fn q_all_even(a: QuatV) -> bool {
    a.w % 2 == 0 && a.x % 2 == 0 && a.y % 2 == 0 && a.z % 2 == 0
}

/// The quaternion dot product over all four components.
pub open spec fn q_dot(a: QuatV, b: QuatV) -> int {
    a.w * b.w + a.x * b.x + a.y * b.y + a.z * b.z
}

/// Component-wise sum of two quaternions.
pub(crate) fn quat_add<T: Scalar>(a: Quaternion<T>, b: Quaternion<T>) -> (r: Quaternion<T>)
    ensures
        qv(r) == q_add(qv(a), qv(b)),
{
    (a.0.add(b.0), [a.1[0].add(b.1[0]), a.1[1].add(b.1[1]), a.1[2].add(b.1[2])])
}

/// The Hamilton product of two quaternions.
pub(crate) fn quat_mul<T: Scalar>(a: Quaternion<T>, b: Quaternion<T>) -> (r: Quaternion<T>)
    ensures
        qv(r) == q_mul(qv(a), qv(b)),
{
    let aw = a.0;
    let ax = a.1[0];
    let ay = a.1[1];
    let az = a.1[2];
    let bw = b.0;
    let bx = b.1[0];
    let by = b.1[1];
    let bz = b.1[2];
    let w = aw.mul(bw).add(ax.mul(bx).neg()).add(ay.mul(by).neg()).add(az.mul(bz).neg());
    let x = aw.mul(bx).add(bw.mul(ax)).add(ay.mul(bz)).add(az.mul(by).neg());
    let y = aw.mul(by).add(bw.mul(ay)).add(az.mul(bx)).add(ax.mul(bz).neg());
    let z = aw.mul(bz).add(bw.mul(az)).add(ax.mul(by)).add(ay.mul(bx).neg());
    (w, [x, y, z])
}

/// Every component of a quaternion scaled by `k`.
pub(crate) fn quat_scale<T: Scalar>(a: Quaternion<T>, k: T) -> (r: Quaternion<T>)
    ensures
        qv(r) == q_scale(qv(a), k.v()),
{
    (a.0.mul(k), [a.1[0].mul(k), a.1[1].mul(k), a.1[2].mul(k)])
}

/// Every component of a quaternion halved.
pub(crate) fn quat_half<T: Scalar>(a: Quaternion<T>) -> (r: Quaternion<T>)
    ensures
        qv(r) == q_half(qv(a)),
{
    (a.0.half(), [a.1[0].half(), a.1[1].half(), a.1[2].half()])
}

/// The quaternion conjugate.
pub(crate) fn quat_conj<T: Scalar>(a: Quaternion<T>) -> (r: Quaternion<T>)
    ensures
        qv(r) == q_conj(qv(a)),
{
    (a.0, [a.1[0].neg(), a.1[1].neg(), a.1[2].neg()])
}

/// The quaternion dot product.
pub(crate) fn quat_dot<T: Scalar>(a: Quaternion<T>, b: Quaternion<T>) -> (r: T)
    ensures
        r.v() == q_dot(qv(a), qv(b)),
{
    a.0.mul(b.0).add(a.1[0].mul(b.1[0])).add(a.1[1].mul(b.1[1])).add(a.1[2].mul(b.1[2]))
}

} // verus!
