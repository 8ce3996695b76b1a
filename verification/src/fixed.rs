//! An exact fixed-point scalar: the crate's own verified implementor of
//! [`crate::scalar::Scalar`].
//!
//! A value is `bits / 65536` (sixteen fractional bits in an `i64`).  All
//! operations saturate at the representable range, division truncates toward
//! zero, the square root rounds down, and the trigonometric functions are
//! low-order polynomial approximations around zero (documented on each
//! method).  Every operation's `*_spec` function states the exact integer
//! arithmetic the executable code performs.

use vstd::prelude::*;

use crate::scalar::Scalar;

verus! {

/// Number of units per one: values carry sixteen fractional bits.
pub const FIXED_ONE: i64 = 65536;

/// Saturate an unbounded integer into the `i64` range.
pub open spec fn clamp64(x: int) -> int {
    if x > i64::MAX as int {
        i64::MAX as int
    } else if x < i64::MIN as int {
        i64::MIN as int
    } else {
        x
    }
}

/// Magnitude of an unbounded integer.
pub open spec fn iabs(x: int) -> int {
    if x < 0 {
        -x
    } else {
        x
    }
}

/// Truncating (toward zero) quotient of `num / den`, saturated into `i64`;
/// zero when the divisor is zero.
pub open spec fn tq(num: int, den: int) -> int {
    if den == 0 {
        0
    } else {
        let m = iabs(num) / iabs(den);
        if (num < 0) != (den < 0) {
            clamp64(-m)
        } else {
            clamp64(m)
        }
    }
}

/// `r` is the rounded-down square root of `x`.
pub open spec fn is_isqrt(x: int, r: int) -> bool {
    0 <= r && r * r <= x && x < (r + 1) * (r + 1)
}

/// The rounded-down square root of a nonnegative integer.
pub open spec fn isqrt(x: int) -> int {
    choose|r: int| is_isqrt(x, r)
}

proof fn lemma_isqrt_is(x: int, r: int)
    requires
        is_isqrt(x, r),
    ensures
        isqrt(x) == r,
{
    assert(is_isqrt(x, isqrt(x)));
    let s = isqrt(x);
    assert(r == s) by {
        if r < s {
            assert((r + 1) * (r + 1) <= s * s) by (nonlinear_arith)
                requires
                    0 <= r + 1 <= s,
            ;
        }
        if s < r {
            assert((s + 1) * (s + 1) <= r * r) by (nonlinear_arith)
                requires
                    0 <= s + 1 <= r,
            ;
        }
    }
}

proof fn lemma_i64_product_in_i128(a: int, b: int)
    requires
        i64::MIN as int <= a <= i64::MAX as int,
        i64::MIN as int <= b <= i64::MAX as int,
    ensures
        (i128::MIN as int) < a * b,
        a * b < (i128::MAX as int),
{
    assert((-0x8000000000000000 <= a <= 0x7fffffffffffffff && -0x8000000000000000 <= b
        <= 0x7fffffffffffffff) ==> (-0x40000000000000000000000000000000 <= a * b
        <= 0x40000000000000000000000000000000)) by (nonlinear_arith);
}

/// Saturate an `i128` into the `i64` range.
fn clamp64_exec(x: i128) -> (r: i64)
    ensures
        r as int == clamp64(x as int),
{
    if x > i64::MAX as i128 {
        i64::MAX
    } else if x < i64::MIN as i128 {
        i64::MIN
    } else {
        x as i64
    }
}

/// Truncating saturated quotient; the executable twin of [`tq`].
fn tq_exec(num: i128, den: i128) -> (r: i64)
    requires
        num > i128::MIN as int,
        den > i128::MIN as int,
    ensures
        r as int == tq(num as int, den as int),
{
    if den == 0 {
        return 0i64;
    }
    let neg: bool = (num < 0) != (den < 0);
    let nm: u128 = if num < 0 {
        (-num) as u128
    } else {
        num as u128
    };
    let dm: u128 = if den < 0 {
        (-den) as u128
    } else {
        den as u128
    };
    let q: u128 = nm / dm;
    if neg {
        if q >= 9223372036854775808u128 {
            i64::MIN
        } else {
            -(q as i64)
        }
    } else {
        if q > 9223372036854775807u128 {
            i64::MAX
        } else {
            q as i64
        }
    }
}

/// A fixed-point number: the value `bits / 65536`.
#[derive(Clone, Copy, PartialEq, Eq, Structural, Debug)]
pub struct Fixed {
    pub bits: i64,
}

impl Fixed {
    /// The fixed-point number closest to `bits / 65536`, i.e. the raw
    /// representation itself.
    pub fn from_bits(bits: i64) -> (r: Fixed)
        ensures
            r == (Fixed { bits }),
    {
        Fixed { bits }
    }
}

impl Scalar for Fixed {
    open spec fn add_spec(self, o: Self) -> Self {
        Fixed { bits: clamp64(self.bits + o.bits) as i64 }
    }

    open spec fn sub_spec(self, o: Self) -> Self {
        Fixed { bits: clamp64(self.bits - o.bits) as i64 }
    }

    open spec fn mul_spec(self, o: Self) -> Self {
        Fixed { bits: tq(self.bits * o.bits, FIXED_ONE as int) as i64 }
    }

    open spec fn div_spec(self, o: Self) -> Self {
        Fixed { bits: tq(self.bits * (FIXED_ONE as int), o.bits as int) as i64 }
    }

    open spec fn abs_spec(self) -> Self {
        if self.bits < 0 {
            Fixed { bits: clamp64(-(self.bits as int)) as i64 }
        } else {
            self
        }
    }

    open spec fn signum_spec(self) -> Self {
        if self.bits < 0 {
            Fixed { bits: -65536i64 }
        } else {
            Fixed { bits: FIXED_ONE }
        }
    }

    open spec fn sqrt_spec(self) -> Self {
        if self.bits < 0 {
            Fixed { bits: 0 }
        } else {
            Fixed { bits: isqrt(self.bits * (FIXED_ONE as int)) as i64 }
        }
    }

    /// Cubic-and-quintic Taylor polynomial around zero:
    /// `x - x^3/6 + x^5/120`, evaluated in this fixed-point arithmetic.
    open spec fn sin_spec(self) -> Self {
        let x2 = self.mul_spec(self);
        let x3 = x2.mul_spec(self);
        let x5 = x3.mul_spec(x2);
        self.sub_spec(x3.div_spec(Self::from_ratio_spec(6, 1))).add_spec(
            x5.div_spec(Self::from_ratio_spec(120, 1)),
        )
    }

    /// Quartic Taylor polynomial around zero:
    /// `1 - x^2/2 + x^4/24`, evaluated in this fixed-point arithmetic.
    open spec fn cos_spec(self) -> Self {
        let x2 = self.mul_spec(self);
        let x4 = x2.mul_spec(x2);
        Self::from_ratio_spec(1, 1).sub_spec(x2.div_spec(Self::from_ratio_spec(2, 1))).add_spec(
            x4.div_spec(Self::from_ratio_spec(24, 1)),
        )
    }

    /// `pi/2` minus a cubic arcsine approximation:
    /// `pi/2 - (x + x^3/6)`, evaluated in this fixed-point arithmetic.
    open spec fn acos_spec(self) -> Self {
        let x2 = self.mul_spec(self);
        let x3 = x2.mul_spec(self);
        Self::pi_spec().div_spec(Self::from_ratio_spec(2, 1)).sub_spec(
            self.add_spec(x3.div_spec(Self::from_ratio_spec(6, 1))),
        )
    }

    open spec fn lt_spec(self, o: Self) -> bool {
        self.bits < o.bits
    }

    open spec fn is_zero_spec(self) -> bool {
        self.bits == 0
    }

    open spec fn from_ratio_spec(num: i64, den: i64) -> Self {
        Fixed { bits: tq(num * (FIXED_ONE as int), den as int) as i64 }
    }

    open spec fn zero_spec() -> Self {
        Fixed { bits: 0 }
    }

    /// The circle constant rounded to sixteen fractional bits.
    open spec fn pi_spec() -> Self {
        Fixed { bits: 205887 }
    }

    /// The most negative representable value doubles as the sentinel.
    open spec fn invalid_spec() -> Self {
        Fixed { bits: i64::MIN }
    }

    fn add(self, o: Self) -> (r: Self) {
        Fixed { bits: clamp64_exec((self.bits as i128) + (o.bits as i128)) }
    }

    fn sub(self, o: Self) -> (r: Self) {
        Fixed { bits: clamp64_exec((self.bits as i128) - (o.bits as i128)) }
    }

    fn mul(self, o: Self) -> (r: Self) {
        proof {
            lemma_i64_product_in_i128(self.bits as int, o.bits as int);
        }
        let p: i128 = (self.bits as i128) * (o.bits as i128);
        Fixed { bits: tq_exec(p, FIXED_ONE as i128) }
    }

    fn div(self, o: Self) -> (r: Self) {
        proof {
            lemma_i64_product_in_i128(self.bits as int, FIXED_ONE as int);
        }
        let n: i128 = (self.bits as i128) * (FIXED_ONE as i128);
        Fixed { bits: tq_exec(n, o.bits as i128) }
    }

    fn abs(self) -> (r: Self) {
        if self.bits < 0 {
            Fixed { bits: clamp64_exec(-(self.bits as i128)) }
        } else {
            self
        }
    }

    fn signum(self) -> (r: Self) {
        if self.bits < 0 {
            Fixed { bits: -FIXED_ONE }
        } else {
            Fixed { bits: FIXED_ONE }
        }
    }

    fn sqrt(self) -> (r: Self) {
        if self.bits < 0 {
            return Fixed { bits: 0 };
        }
        let x: u128 = (self.bits as u128) * (FIXED_ONE as u128);
        let mut lo: u128 = 0;
        let mut hi: u128 = 1099511627776u128;
        proof {
            assert(1099511627776u128 * 1099511627776u128 > x) by (nonlinear_arith)
                requires
                    x < 604462909807314587353088,
            ;
        }
        while lo + 1 < hi
            invariant
                lo < hi <= 1099511627776u128,
                lo * lo <= x,
                hi * hi > x,
            decreases hi - lo,
        {
            let mid: u128 = lo + (hi - lo) / 2;
            proof {
                assert(mid * mid <= 0x100000000000000000000 as u128) by (nonlinear_arith)
                    requires
                        0 <= mid <= 1099511627776u128,
                ;
            }
            if mid * mid <= x {
                lo = mid;
            } else {
                hi = mid;
            }
        }
        proof {
            assert((lo + 1) * (lo + 1) > x);
            lemma_isqrt_is(x as int, lo as int);
        }
        Fixed { bits: lo as i64 }
    }

    fn sin(self) -> (r: Self) {
        let x2 = self.mul(self);
        let x3 = x2.mul(self);
        let x5 = x3.mul(x2);
        let six = Self::from_ratio(6, 1);
        let onetwenty = Self::from_ratio(120, 1);
        self.sub(x3.div(six)).add(x5.div(onetwenty))
    }

    fn cos(self) -> (r: Self) {
        let x2 = self.mul(self);
        let x4 = x2.mul(x2);
        let one = Self::from_ratio(1, 1);
        let two = Self::from_ratio(2, 1);
        let twentyfour = Self::from_ratio(24, 1);
        one.sub(x2.div(two)).add(x4.div(twentyfour))
    }

    fn acos(self) -> (r: Self) {
        let x2 = self.mul(self);
        let x3 = x2.mul(self);
        let two = Self::from_ratio(2, 1);
        let six = Self::from_ratio(6, 1);
        Self::pi().div(two).sub(self.add(x3.div(six)))
    }

    fn lt(self, o: Self) -> (r: bool) {
        self.bits < o.bits
    }

    fn is_zero(self) -> (r: bool) {
        self.bits == 0
    }

    fn from_ratio(num: i64, den: i64) -> (r: Self) {
        proof {
            lemma_i64_product_in_i128(num as int, FIXED_ONE as int);
        }
        let n: i128 = (num as i128) * (FIXED_ONE as i128);
        Fixed { bits: tq_exec(n, den as i128) }
    }

    fn zero() -> (r: Self) {
        Fixed { bits: 0 }
    }

    fn pi() -> (r: Self) {
        Fixed { bits: 205887 }
    }

    fn invalid() -> (r: Self) {
        Fixed { bits: i64::MIN }
    }

    proof fn zero_identity_laws(x: Self) {
        assert(x.add_spec(Self::zero_spec()) == x);
        assert(x.bits * 0 == 0);
        assert(0 * x.bits == 0);
    }
}

} // verus!
