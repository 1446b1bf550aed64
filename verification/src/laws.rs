//! The algebraic laws of the dual-quaternion algebra, stated over the exact
//! values of the operations' results and proved once and for all.
//!
//! The laws that depend on halving the dual part exactly (the round trip and
//! the conjugate inverse) assume that every component of the quaternion
//! product `(0, translation) * rotation` is even, since on an exact integer
//! carrier halving an odd component loses the remainder; an identity
//! rotation together with the translation `(1, 0, 0)` is such an input.
//!
//! The nonlinear steps are kept to single distributions and regroupings of
//! two or three factors each, which the solver settles quickly; everything
//! else is linear bookkeeping over those products.

use vstd::prelude::*;

use crate::dq_conj;
use crate::dq_from;
use crate::dq_identity;
use crate::dq_mul;
use crate::dq_normalize_unit;
use crate::dq_translation;
use crate::quat::q_add;
use crate::quat::q_all_even;
use crate::quat::q_conj;
use crate::quat::q_dot;
use crate::quat::q_identity;
use crate::quat::q_mul;
use crate::quat::q_pure;
use crate::quat::q_scale;
use crate::quat::q_vec;
use crate::quat::q_zero;
use crate::quat::QuatV;
use crate::quat::Vec3V;
use crate::DualV;

verus! {

/// A quaternion times its conjugate is the dot product of the quaternion
/// with itself on the scalar part, with a zero vector part.
proof fn lemma_mul_conj(r: QuatV)
    ensures
        q_mul(r, q_conj(r)) == (QuatV { w: q_dot(r, r), x: 0, y: 0, z: 0 }),
        q_mul(q_conj(r), r) == (QuatV { w: q_dot(r, r), x: 0, y: 0, z: 0 }),
{
    assert(q_mul(r, q_conj(r)).w == q_dot(r, r) && q_mul(r, q_conj(r)).x == 0 && q_mul(
        r,
        q_conj(r),
    ).y == 0 && q_mul(r, q_conj(r)).z == 0) by (nonlinear_arith);
    assert(q_mul(q_conj(r), r).w == q_dot(r, r) && q_mul(q_conj(r), r).x == 0 && q_mul(
        q_conj(r),
        r,
    ).y == 0 && q_mul(q_conj(r), r).z == 0) by (nonlinear_arith);
}

/// The cross terms of a product with a conjugate: `a * conj(b) + b * conj(a)`
/// is twice the dot product of `a` and `b` on the scalar part, with a zero
/// vector part.
proof fn lemma_conj_cross(a: QuatV, b: QuatV)
    ensures
        q_add(q_mul(a, q_conj(b)), q_mul(b, q_conj(a))) == (QuatV {
            w: 2 * q_dot(a, b),
            x: 0,
            y: 0,
            z: 0,
        }),
{
    assert(q_mul(a, q_conj(b)).w + q_mul(b, q_conj(a)).w == 2 * q_dot(a, b))
        by (nonlinear_arith);
    assert(q_mul(a, q_conj(b)).x + q_mul(b, q_conj(a)).x == 0) by (nonlinear_arith);
    assert(q_mul(a, q_conj(b)).y + q_mul(b, q_conj(a)).y == 0) by (nonlinear_arith);
    assert(q_mul(a, q_conj(b)).z + q_mul(b, q_conj(a)).z == 0) by (nonlinear_arith);
}

/// Multiplying a quaternion by `r` and then by the conjugate of `r` scales
/// it by the dot product of `r` with itself.
proof fn lemma_sandwich(a: QuatV, r: QuatV)
    ensures
        q_mul(q_mul(a, r), q_conj(r)) == q_scale(a, q_dot(r, r)),
{
    let s = q_mul(q_mul(a, r), q_conj(r));
    let d = q_dot(r, r);
    assert((a.w * r.w - a.x * r.x - a.y * r.y - a.z * r.z) * r.w == (a.w * r.w) * r.w - (a.x * r.x) * r.w - (a.y * r.y) * r.w - (a.z * r.z) * r.w) by (nonlinear_arith);
    assert((a.w * r.x + r.w * a.x + a.y * r.z - a.z * r.y) * (-r.x) == (a.w * r.x) * (-r.x) + (r.w * a.x) * (-r.x) + (a.y * r.z) * (-r.x) - (a.z * r.y) * (-r.x)) by (nonlinear_arith);
    assert((a.w * r.y + r.w * a.y + a.z * r.x - a.x * r.z) * (-r.y) == (a.w * r.y) * (-r.y) + (r.w * a.y) * (-r.y) + (a.z * r.x) * (-r.y) - (a.x * r.z) * (-r.y)) by (nonlinear_arith);
    assert((a.w * r.z + r.w * a.z + a.x * r.y - a.y * r.x) * (-r.z) == (a.w * r.z) * (-r.z) + (r.w * a.z) * (-r.z) + (a.x * r.y) * (-r.z) - (a.y * r.x) * (-r.z)) by (nonlinear_arith);
    assert((a.w * r.w - a.x * r.x - a.y * r.y - a.z * r.z) * (-r.x) == (a.w * r.w) * (-r.x) - (a.x * r.x) * (-r.x) - (a.y * r.y) * (-r.x) - (a.z * r.z) * (-r.x)) by (nonlinear_arith);
    assert(r.w * (a.w * r.x + r.w * a.x + a.y * r.z - a.z * r.y) == r.w * (a.w * r.x) + r.w * (r.w * a.x) + r.w * (a.y * r.z) - r.w * (a.z * r.y)) by (nonlinear_arith);
    assert((a.w * r.y + r.w * a.y + a.z * r.x - a.x * r.z) * (-r.z) == (a.w * r.y) * (-r.z) + (r.w * a.y) * (-r.z) + (a.z * r.x) * (-r.z) - (a.x * r.z) * (-r.z)) by (nonlinear_arith);
    assert((a.w * r.z + r.w * a.z + a.x * r.y - a.y * r.x) * (-r.y) == (a.w * r.z) * (-r.y) + (r.w * a.z) * (-r.y) + (a.x * r.y) * (-r.y) - (a.y * r.x) * (-r.y)) by (nonlinear_arith);
    assert((a.w * r.w - a.x * r.x - a.y * r.y - a.z * r.z) * (-r.y) == (a.w * r.w) * (-r.y) - (a.x * r.x) * (-r.y) - (a.y * r.y) * (-r.y) - (a.z * r.z) * (-r.y)) by (nonlinear_arith);
    assert(r.w * (a.w * r.y + r.w * a.y + a.z * r.x - a.x * r.z) == r.w * (a.w * r.y) + r.w * (r.w * a.y) + r.w * (a.z * r.x) - r.w * (a.x * r.z)) by (nonlinear_arith);
    assert((a.w * r.z + r.w * a.z + a.x * r.y - a.y * r.x) * (-r.x) == (a.w * r.z) * (-r.x) + (r.w * a.z) * (-r.x) + (a.x * r.y) * (-r.x) - (a.y * r.x) * (-r.x)) by (nonlinear_arith);
    assert((a.w * r.x + r.w * a.x + a.y * r.z - a.z * r.y) * (-r.z) == (a.w * r.x) * (-r.z) + (r.w * a.x) * (-r.z) + (a.y * r.z) * (-r.z) - (a.z * r.y) * (-r.z)) by (nonlinear_arith);
    assert((a.w * r.w - a.x * r.x - a.y * r.y - a.z * r.z) * (-r.z) == (a.w * r.w) * (-r.z) - (a.x * r.x) * (-r.z) - (a.y * r.y) * (-r.z) - (a.z * r.z) * (-r.z)) by (nonlinear_arith);
    assert(r.w * (a.w * r.z + r.w * a.z + a.x * r.y - a.y * r.x) == r.w * (a.w * r.z) + r.w * (r.w * a.z) + r.w * (a.x * r.y) - r.w * (a.y * r.x)) by (nonlinear_arith);
    assert((a.w * r.x + r.w * a.x + a.y * r.z - a.z * r.y) * (-r.y) == (a.w * r.x) * (-r.y) + (r.w * a.x) * (-r.y) + (a.y * r.z) * (-r.y) - (a.z * r.y) * (-r.y)) by (nonlinear_arith);
    assert((a.w * r.y + r.w * a.y + a.z * r.x - a.x * r.z) * (-r.x) == (a.w * r.y) * (-r.x) + (r.w * a.y) * (-r.x) + (a.z * r.x) * (-r.x) - (a.x * r.z) * (-r.x)) by (nonlinear_arith);
    assert((a.w * r.w) * r.w == a.w * (r.w * r.w)) by (nonlinear_arith);
    assert((a.x * r.x) * r.w == a.x * (r.w * r.x)) by (nonlinear_arith);
    assert((a.y * r.y) * r.w == a.y * (r.w * r.y)) by (nonlinear_arith);
    assert((a.z * r.z) * r.w == a.z * (r.w * r.z)) by (nonlinear_arith);
    assert((a.w * r.x) * (-r.x) == -(a.w * (r.x * r.x))) by (nonlinear_arith);
    assert((r.w * a.x) * (-r.x) == -(a.x * (r.w * r.x))) by (nonlinear_arith);
    assert((a.y * r.z) * (-r.x) == -(a.y * (r.x * r.z))) by (nonlinear_arith);
    assert((a.z * r.y) * (-r.x) == -(a.z * (r.x * r.y))) by (nonlinear_arith);
    assert((a.w * r.y) * (-r.y) == -(a.w * (r.y * r.y))) by (nonlinear_arith);
    assert((r.w * a.y) * (-r.y) == -(a.y * (r.w * r.y))) by (nonlinear_arith);
    assert((a.z * r.x) * (-r.y) == -(a.z * (r.x * r.y))) by (nonlinear_arith);
    assert((a.x * r.z) * (-r.y) == -(a.x * (r.y * r.z))) by (nonlinear_arith);
    assert((a.w * r.z) * (-r.z) == -(a.w * (r.z * r.z))) by (nonlinear_arith);
    assert((r.w * a.z) * (-r.z) == -(a.z * (r.w * r.z))) by (nonlinear_arith);
    assert((a.x * r.y) * (-r.z) == -(a.x * (r.y * r.z))) by (nonlinear_arith);
    assert((a.y * r.x) * (-r.z) == -(a.y * (r.x * r.z))) by (nonlinear_arith);
    assert((a.w * r.w) * (-r.x) == -(a.w * (r.w * r.x))) by (nonlinear_arith);
    assert((a.x * r.x) * (-r.x) == -(a.x * (r.x * r.x))) by (nonlinear_arith);
    assert((a.y * r.y) * (-r.x) == -(a.y * (r.x * r.y))) by (nonlinear_arith);
    assert((a.z * r.z) * (-r.x) == -(a.z * (r.x * r.z))) by (nonlinear_arith);
    assert(r.w * (a.w * r.x) == a.w * (r.w * r.x)) by (nonlinear_arith);
    assert(r.w * (r.w * a.x) == a.x * (r.w * r.w)) by (nonlinear_arith);
    assert(r.w * (a.y * r.z) == a.y * (r.w * r.z)) by (nonlinear_arith);
    assert(r.w * (a.z * r.y) == a.z * (r.w * r.y)) by (nonlinear_arith);
    assert((a.w * r.y) * (-r.z) == -(a.w * (r.y * r.z))) by (nonlinear_arith);
    assert((r.w * a.y) * (-r.z) == -(a.y * (r.w * r.z))) by (nonlinear_arith);
    assert((a.z * r.x) * (-r.z) == -(a.z * (r.x * r.z))) by (nonlinear_arith);
    assert((a.x * r.z) * (-r.z) == -(a.x * (r.z * r.z))) by (nonlinear_arith);
    assert((a.w * r.z) * (-r.y) == -(a.w * (r.y * r.z))) by (nonlinear_arith);
    assert((r.w * a.z) * (-r.y) == -(a.z * (r.w * r.y))) by (nonlinear_arith);
    assert((a.x * r.y) * (-r.y) == -(a.x * (r.y * r.y))) by (nonlinear_arith);
    assert((a.y * r.x) * (-r.y) == -(a.y * (r.x * r.y))) by (nonlinear_arith);
    assert((a.w * r.w) * (-r.y) == -(a.w * (r.w * r.y))) by (nonlinear_arith);
    assert((a.x * r.x) * (-r.y) == -(a.x * (r.x * r.y))) by (nonlinear_arith);
    assert((a.y * r.y) * (-r.y) == -(a.y * (r.y * r.y))) by (nonlinear_arith);
    assert((a.z * r.z) * (-r.y) == -(a.z * (r.y * r.z))) by (nonlinear_arith);
    assert(r.w * (a.w * r.y) == a.w * (r.w * r.y)) by (nonlinear_arith);
    assert(r.w * (r.w * a.y) == a.y * (r.w * r.w)) by (nonlinear_arith);
    assert(r.w * (a.z * r.x) == a.z * (r.w * r.x)) by (nonlinear_arith);
    assert(r.w * (a.x * r.z) == a.x * (r.w * r.z)) by (nonlinear_arith);
    assert((a.w * r.z) * (-r.x) == -(a.w * (r.x * r.z))) by (nonlinear_arith);
    assert((r.w * a.z) * (-r.x) == -(a.z * (r.w * r.x))) by (nonlinear_arith);
    assert((a.x * r.y) * (-r.x) == -(a.x * (r.x * r.y))) by (nonlinear_arith);
    assert((a.y * r.x) * (-r.x) == -(a.y * (r.x * r.x))) by (nonlinear_arith);
    assert((a.w * r.x) * (-r.z) == -(a.w * (r.x * r.z))) by (nonlinear_arith);
    assert((r.w * a.x) * (-r.z) == -(a.x * (r.w * r.z))) by (nonlinear_arith);
    assert((a.y * r.z) * (-r.z) == -(a.y * (r.z * r.z))) by (nonlinear_arith);
    assert((a.z * r.y) * (-r.z) == -(a.z * (r.y * r.z))) by (nonlinear_arith);
    assert((a.w * r.w) * (-r.z) == -(a.w * (r.w * r.z))) by (nonlinear_arith);
    assert((a.x * r.x) * (-r.z) == -(a.x * (r.x * r.z))) by (nonlinear_arith);
    assert((a.y * r.y) * (-r.z) == -(a.y * (r.y * r.z))) by (nonlinear_arith);
    assert((a.z * r.z) * (-r.z) == -(a.z * (r.z * r.z))) by (nonlinear_arith);
    assert(r.w * (a.w * r.z) == a.w * (r.w * r.z)) by (nonlinear_arith);
    assert(r.w * (r.w * a.z) == a.z * (r.w * r.w)) by (nonlinear_arith);
    assert(r.w * (a.x * r.y) == a.x * (r.w * r.y)) by (nonlinear_arith);
    assert(r.w * (a.y * r.x) == a.y * (r.w * r.x)) by (nonlinear_arith);
    assert((a.w * r.x) * (-r.y) == -(a.w * (r.x * r.y))) by (nonlinear_arith);
    assert((r.w * a.x) * (-r.y) == -(a.x * (r.w * r.y))) by (nonlinear_arith);
    assert((a.y * r.z) * (-r.y) == -(a.y * (r.y * r.z))) by (nonlinear_arith);
    assert((a.z * r.y) * (-r.y) == -(a.z * (r.y * r.y))) by (nonlinear_arith);
    assert((a.w * r.y) * (-r.x) == -(a.w * (r.x * r.y))) by (nonlinear_arith);
    assert((r.w * a.y) * (-r.x) == -(a.y * (r.w * r.x))) by (nonlinear_arith);
    assert((a.z * r.x) * (-r.x) == -(a.z * (r.x * r.x))) by (nonlinear_arith);
    assert((a.x * r.z) * (-r.x) == -(a.x * (r.x * r.z))) by (nonlinear_arith);
    assert(a.w * (r.w * r.w + r.x * r.x + r.y * r.y + r.z * r.z) == a.w * (r.w * r.w) + a.w * (r.x * r.x) + a.w * (r.y * r.y) + a.w * (r.z * r.z)) by (nonlinear_arith);
    assert(s.w == a.w * d);
    assert(a.x * (r.w * r.w + r.x * r.x + r.y * r.y + r.z * r.z) == a.x * (r.w * r.w) + a.x * (r.x * r.x) + a.x * (r.y * r.y) + a.x * (r.z * r.z)) by (nonlinear_arith);
    assert(s.x == a.x * d);
    assert(a.y * (r.w * r.w + r.x * r.x + r.y * r.y + r.z * r.z) == a.y * (r.w * r.w) + a.y * (r.x * r.x) + a.y * (r.y * r.y) + a.y * (r.z * r.z)) by (nonlinear_arith);
    assert(s.y == a.y * d);
    assert(a.z * (r.w * r.w + r.x * r.x + r.y * r.y + r.z * r.z) == a.z * (r.w * r.w) + a.z * (r.x * r.x) + a.z * (r.y * r.y) + a.z * (r.z * r.z)) by (nonlinear_arith);
    assert(s.z == a.z * d);
}

/// The dot product of `r` with `p * r` is the scalar part of `p` times the
/// dot product of `r` with itself.
proof fn lemma_dot_mul_self(p: QuatV, r: QuatV)
    ensures
        q_dot(r, q_mul(p, r)) == p.w * q_dot(r, r),
{
    assert(r.w * (p.w * r.w - p.x * r.x - p.y * r.y - p.z * r.z) == r.w * (p.w * r.w) - r.w * (p.x * r.x) - r.w * (p.y * r.y) - r.w * (p.z * r.z)) by (nonlinear_arith);
    assert(r.x * (p.w * r.x + r.w * p.x + p.y * r.z - p.z * r.y) == r.x * (p.w * r.x) + r.x * (r.w * p.x) + r.x * (p.y * r.z) - r.x * (p.z * r.y)) by (nonlinear_arith);
    assert(r.y * (p.w * r.y + r.w * p.y + p.z * r.x - p.x * r.z) == r.y * (p.w * r.y) + r.y * (r.w * p.y) + r.y * (p.z * r.x) - r.y * (p.x * r.z)) by (nonlinear_arith);
    assert(r.z * (p.w * r.z + r.w * p.z + p.x * r.y - p.y * r.x) == r.z * (p.w * r.z) + r.z * (r.w * p.z) + r.z * (p.x * r.y) - r.z * (p.y * r.x)) by (nonlinear_arith);
    assert(r.w * (p.w * r.w) == p.w * (r.w * r.w)) by (nonlinear_arith);
    assert(r.w * (p.x * r.x) == p.x * (r.w * r.x)) by (nonlinear_arith);
    assert(r.w * (p.y * r.y) == p.y * (r.w * r.y)) by (nonlinear_arith);
    assert(r.w * (p.z * r.z) == p.z * (r.w * r.z)) by (nonlinear_arith);
    assert(r.x * (p.w * r.x) == p.w * (r.x * r.x)) by (nonlinear_arith);
    assert(r.x * (r.w * p.x) == p.x * (r.w * r.x)) by (nonlinear_arith);
    assert(r.x * (p.y * r.z) == p.y * (r.x * r.z)) by (nonlinear_arith);
    assert(r.x * (p.z * r.y) == p.z * (r.x * r.y)) by (nonlinear_arith);
    assert(r.y * (p.w * r.y) == p.w * (r.y * r.y)) by (nonlinear_arith);
    assert(r.y * (r.w * p.y) == p.y * (r.w * r.y)) by (nonlinear_arith);
    assert(r.y * (p.z * r.x) == p.z * (r.x * r.y)) by (nonlinear_arith);
    assert(r.y * (p.x * r.z) == p.x * (r.y * r.z)) by (nonlinear_arith);
    assert(r.z * (p.w * r.z) == p.w * (r.z * r.z)) by (nonlinear_arith);
    assert(r.z * (r.w * p.z) == p.z * (r.w * r.z)) by (nonlinear_arith);
    assert(r.z * (p.x * r.y) == p.x * (r.y * r.z)) by (nonlinear_arith);
    assert(r.z * (p.y * r.x) == p.y * (r.x * r.z)) by (nonlinear_arith);
    assert(p.w * (r.w * r.w + r.x * r.x + r.y * r.y + r.z * r.z) == p.w * (r.w * r.w) + p.w * (r.x * r.x) + p.w * (r.y * r.y) + p.w * (r.z * r.z)) by (nonlinear_arith);
    assert(q_dot(r, q_mul(p, r)) == p.w * q_dot(r, r));
}

/// Identity law: multiplying by the identity dual-quaternion on either side
/// leaves any dual-quaternion unchanged.
pub proof fn lemma_identity_law(a: DualV)
    ensures
        dq_mul(dq_identity(), a) == a,
        dq_mul(a, dq_identity()) == a,
{
}

/// Round-trip law: building a dual-quaternion from a rotation of unit
/// length and a translation and reading the two components back yields the
/// rotation and the translation unchanged. Halving the dual part must be
/// exact, so every component of `(0, translation) * rotation` is required
/// to be even.
pub proof fn lemma_round_trip(rotation: QuatV, translation: Vec3V)
    requires
        q_dot(rotation, rotation) == 1,
        q_all_even(q_mul(q_pure(translation), rotation)),
    ensures
        dq_from(rotation, translation).real == rotation,
        dq_translation(dq_from(rotation, translation)) == translation,
{
    let p = q_pure(translation);
    let u = q_mul(p, rotation);
    let m = dq_from(rotation, translation);
    assert(q_scale(m.dual, 2) == u);
    lemma_sandwich(p, rotation);
    assert(q_scale(p, 1) == p);
    assert(q_vec(q_mul(u, q_conj(rotation))) == translation);
}

/// Conjugate-inverse law: a dual-quaternion built from a rotation of unit
/// length and a translation, multiplied by its conjugate, is the identity
/// transform: its dual part is zero, its extracted rotation is the identity
/// quaternion and its extracted translation is the zero vector. As in the
/// round-trip law, every component of `(0, translation) * rotation` is
/// required to be even.
pub proof fn lemma_conj_inverse(rotation: QuatV, translation: Vec3V)
    requires
        q_dot(rotation, rotation) == 1,
        q_all_even(q_mul(q_pure(translation), rotation)),
    ensures
        dq_mul(dq_from(rotation, translation), dq_conj(dq_from(rotation, translation))).real
            == q_identity(),
        dq_mul(dq_from(rotation, translation), dq_conj(dq_from(rotation, translation))).dual
            == q_zero(),
        dq_translation(dq_mul(dq_from(rotation, translation), dq_conj(dq_from(rotation, translation))))
            == (Vec3V { x: 0, y: 0, z: 0 }),
{
    let p = q_pure(translation);
    let u = q_mul(p, rotation);
    let m = dq_from(rotation, translation);
    let h = m.dual;
    assert(u.w == h.w * 2 && u.x == h.x * 2 && u.y == h.y * 2 && u.z == h.z * 2);
    lemma_mul_conj(rotation);
    lemma_conj_cross(rotation, h);
    lemma_dot_mul_self(p, rotation);
    assert(rotation.w * u.w == (rotation.w * h.w) * 2) by (nonlinear_arith)
        requires u.w == h.w * 2;
    assert(rotation.x * u.x == (rotation.x * h.x) * 2) by (nonlinear_arith)
        requires u.x == h.x * 2;
    assert(rotation.y * u.y == (rotation.y * h.y) * 2) by (nonlinear_arith)
        requires u.y == h.y * 2;
    assert(rotation.z * u.z == (rotation.z * h.z) * 2) by (nonlinear_arith)
        requires u.z == h.z * 2;
    assert(q_dot(rotation, h) == 0);
    let res = dq_mul(m, dq_conj(m));
    assert(res.dual == q_zero());
    assert(q_scale(res.dual, 2) == q_scale(q_zero(), 2));
    assert(q_scale(q_zero(), 2) == q_zero());
    assert(q_mul(q_zero(), q_conj(res.real)) == q_zero());
    assert(q_vec(q_zero()) == (Vec3V { x: 0, y: 0, z: 0 }));
}

/// Idempotence of normalization: on a dual-quaternion whose real part has
/// unit length, normalizing a second time changes nothing; and on one that
/// also satisfies the orthogonality half of the rigid-transform invariant,
/// normalizing changes nothing at all.
pub proof fn lemma_normalize_idempotent(a: DualV)
    requires
        q_dot(a.real, a.real) == 1,
    ensures
        dq_normalize_unit(dq_normalize_unit(a)) == dq_normalize_unit(a),
        q_dot(a.real, a.dual) == 0 ==> dq_normalize_unit(a) == a,
{
    let n = dq_normalize_unit(a);
    let c = q_dot(a.real, a.dual);
    assert(a.real.w * (a.dual.w + a.real.w * (-c)) == a.real.w * a.dual.w + (a.real.w * a.real.w)
        * (-c)) by (nonlinear_arith);
    assert(a.real.x * (a.dual.x + a.real.x * (-c)) == a.real.x * a.dual.x + (a.real.x * a.real.x)
        * (-c)) by (nonlinear_arith);
    assert(a.real.y * (a.dual.y + a.real.y * (-c)) == a.real.y * a.dual.y + (a.real.y * a.real.y)
        * (-c)) by (nonlinear_arith);
    assert(a.real.z * (a.dual.z + a.real.z * (-c)) == a.real.z * a.dual.z + (a.real.z * a.real.z)
        * (-c)) by (nonlinear_arith);
    assert((a.real.w * a.real.w) * (-c) + (a.real.x * a.real.x) * (-c) + (a.real.y * a.real.y) * (
    -c) + (a.real.z * a.real.z) * (-c) == -c) by (nonlinear_arith)
        requires
            a.real.w * a.real.w + a.real.x * a.real.x + a.real.y * a.real.y + a.real.z * a.real.z
                == 1,
    ;
    assert(q_dot(n.real, n.dual) == 0);
    assert(q_scale(n.real, -q_dot(n.real, n.dual)) == q_scale(n.real, 0));
    assert(q_scale(n.real, 0) == q_zero()) by (nonlinear_arith);
    if q_dot(a.real, a.dual) == 0 {
        assert(q_scale(a.real, -q_dot(a.real, a.dual)) == q_scale(a.real, 0));
        assert(q_scale(a.real, 0) == q_zero()) by (nonlinear_arith);
    }
}

/// Translation-only composition: composing two dual-quaternions built from
/// the identity rotation adds their translations, and the composite still
/// carries the identity rotation. Each translation's components are
/// required to be even so that halving the dual parts is exact.
pub proof fn lemma_translation_composition(t1: Vec3V, t2: Vec3V)
    requires
        q_all_even(q_pure(t1)),
        q_all_even(q_pure(t2)),
    ensures
        dq_mul(dq_from(q_identity(), t1), dq_from(q_identity(), t2)).real == q_identity(),
        dq_translation(dq_mul(dq_from(q_identity(), t1), dq_from(q_identity(), t2))) == (Vec3V {
            x: t1.x + t2.x,
            y: t1.y + t2.y,
            z: t1.z + t2.z,
        }),
{
    assert(q_mul(q_pure(t1), q_identity()) == q_pure(t1));
    assert(q_mul(q_pure(t2), q_identity()) == q_pure(t2));
}

} // verus!
