use vstd::prelude::*;

verus! {

/// The scalar capability the algebra is generic over.
///
/// Every operation of this library is generic over a scalar type supplied by
/// the caller: the library itself fixes no number type. A scalar carries an
/// exact value, given by the spec function `v`, and each arithmetic method
/// promises how the exact value of its result relates to the exact values of
/// its operands. All contracts of the library, and all its proved laws, are
/// stated over these exact values.
///
/// An implementation over an exact number type (integers, rationals) meets
/// these contracts on the nose wherever the operations stay exact; an
/// implementation over a machine floating-point type meets them up to
/// rounding, which is the usual reading of algebraic laws for such types.
/// `v` is specification-only and erased from compiled code, so implementors
/// outside this crate only provide the executable methods.
pub trait Scalar: Sized + Copy {
    /// The exact value this scalar stands for. The default leaves it
    /// unspecified: an implementation given inside verified code gives it a
    /// body, and one given outside verified code leaves it as it is, which
    /// is the reading under which such a carrier meets the contracts only
    /// as far as its arithmetic is exact.
    open spec fn v(self) -> int {
        vstd::pervasive::arbitrary()
    }

    /// The additive identity.
    fn zero() -> (r: Self)
        ensures
            r.v() == 0,
    ;

    /// The multiplicative identity.
    fn one() -> (r: Self)
        ensures
            r.v() == 1,
    ;

    /// The scalar standing for two; used when a translation is read back out
    /// of the dual part.
    fn two() -> (r: Self)
        ensures
            r.v() == 2,
    ;

    /// Half of this scalar. On an exact integer carrier the division is
    /// Euclidean, so halving is exact precisely on even values; the laws
    /// that need an exact half say so in their preconditions.
    fn half(self) -> (r: Self)
        ensures
            r.v() == self.v() / 2,
    ;

    /// Scalar addition.
    fn add(self, other: Self) -> (r: Self)
        ensures
            r.v() == self.v() + other.v(),
    ;

    /// Scalar multiplication.
    fn mul(self, other: Self) -> (r: Self)
        ensures
            r.v() == self.v() * other.v(),
    ;

    /// Scalar negation.
    fn neg(self) -> (r: Self)
        ensures
            r.v() == -self.v(),
    ;

    /// The square root. The algebra relies on it only where the radicand is
    /// a unit or at least one, so no more is asked of it.
    fn sqrt(self) -> (r: Self)
        ensures
            self.v() == 1 ==> r.v() == 1,
            self.v() >= 1 ==> r.v() >= 1,
    ;

    /// Scalar division by a non-zero divisor; Euclidean on the exact values.
    fn div(self, other: Self) -> (r: Self)
        requires
            other.v() != 0,
        ensures
            r.v() == self.v() / other.v(),
    ;
}

} // verus!
