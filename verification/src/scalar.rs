//! The scalar arithmetic interface that every numeric type used by the
//! simulation must provide.
//!
//! Each operation comes in two parts: an uninterpreted-per-implementor
//! `*_spec` function describing the mathematical value of the operation for
//! that implementor, and an executable method whose contract ties the
//! computed result to the `*_spec` function.  Contracts throughout the crate
//! are stated as compositions of these `*_spec` functions, so a verified
//! caller knows exactly which arithmetic expression every result is.

use vstd::prelude::*;

verus! {

/// Arithmetic required of a simulation scalar.
///
/// `from_ratio` supplies every rational constant the physics needs (so an
/// implementor controls its own rounding), `pi` the one irrational constant,
/// and `invalid` the implementor's "no meaningful value" sentinel (used where
/// a floating-point implementor would use a quiet NaN).
pub trait Scalar: Sized + Copy {
    /// Value of `self + o` in this arithmetic.
    spec fn add_spec(self, o: Self) -> Self;

    /// Value of `self - o` in this arithmetic.
    spec fn sub_spec(self, o: Self) -> Self;

    /// Value of `self * o` in this arithmetic.
    spec fn mul_spec(self, o: Self) -> Self;

    /// Value of `self / o` in this arithmetic.
    spec fn div_spec(self, o: Self) -> Self;

    /// Value of `|self|` in this arithmetic.
    spec fn abs_spec(self) -> Self;

    /// The sign of `self` as a scalar (one or minus one).
    spec fn signum_spec(self) -> Self;

    /// Value of the square root of `self` in this arithmetic.
    spec fn sqrt_spec(self) -> Self;

    /// Value of `sin(self)` in this arithmetic.
    spec fn sin_spec(self) -> Self;

    /// Value of `cos(self)` in this arithmetic.
    spec fn cos_spec(self) -> Self;

    /// Value of `acos(self)` in this arithmetic.
    spec fn acos_spec(self) -> Self;

    /// Whether `self` is strictly below `o`.
    spec fn lt_spec(self, o: Self) -> bool;

    /// Whether `self` is this arithmetic's zero.
    spec fn is_zero_spec(self) -> bool;

    /// This arithmetic's representation of the rational `num / den`.
    spec fn from_ratio_spec(num: i64, den: i64) -> Self;

    /// This arithmetic's representation of zero.
    spec fn zero_spec() -> Self;

    /// This arithmetic's approximation of the circle constant.
    spec fn pi_spec() -> Self;

    /// This arithmetic's "no meaningful value" sentinel.
    spec fn invalid_spec() -> Self;

    fn add(self, o: Self) -> (r: Self)
        ensures
            r == self.add_spec(o),
    ;

    fn sub(self, o: Self) -> (r: Self)
        ensures
            r == self.sub_spec(o),
    ;

    fn mul(self, o: Self) -> (r: Self)
        ensures
            r == self.mul_spec(o),
    ;

    fn div(self, o: Self) -> (r: Self)
        ensures
            r == self.div_spec(o),
    ;

    fn abs(self) -> (r: Self)
        ensures
            r == self.abs_spec(),
    ;

    fn signum(self) -> (r: Self)
        ensures
            r == self.signum_spec(),
    ;

    fn sqrt(self) -> (r: Self)
        ensures
            r == self.sqrt_spec(),
    ;

    fn sin(self) -> (r: Self)
        ensures
            r == self.sin_spec(),
    ;

    fn cos(self) -> (r: Self)
        ensures
            r == self.cos_spec(),
    ;

    fn acos(self) -> (r: Self)
        ensures
            r == self.acos_spec(),
    ;

    fn lt(self, o: Self) -> (r: bool)
        ensures
            r == self.lt_spec(o),
    ;

    fn is_zero(self) -> (r: bool)
        ensures
            r == self.is_zero_spec(),
    ;

    fn from_ratio(num: i64, den: i64) -> (r: Self)
        requires
            den != 0,
        ensures
            r == Self::from_ratio_spec(num, den),
    ;

    fn zero() -> (r: Self)
        ensures
            r == Self::zero_spec(),
    ;

    fn pi() -> (r: Self)
        ensures
            r == Self::pi_spec(),
    ;

    fn invalid() -> (r: Self)
        ensures
            r == Self::invalid_spec(),
    ;

    /// Zero must be the identity of addition and must annihilate
    /// multiplication.  These are the only algebraic identities the generic
    /// proofs of the crate rely on; every verified implementor discharges
    /// them.
    proof fn zero_identity_laws(x: Self)
        ensures
            x.add_spec(Self::zero_spec()) == x,
            x.mul_spec(Self::zero_spec()) == Self::zero_spec(),
            Self::zero_spec().mul_spec(x) == Self::zero_spec(),
    ;
}

} // verus!
