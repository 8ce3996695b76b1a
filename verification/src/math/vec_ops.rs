//! Fixed-dimension numeric vectors over any [`Scalar`].
//!
//! Every operation's contract states the exact scalar expression of each
//! component, so callers know precisely which arithmetic was performed, not
//! merely the shape of the result.

use vstd::prelude::*;

use crate::scalar::Scalar;

verus! {

/// Componentwise sum of two equal-length sequences.
pub open spec fn seq_add<S: Scalar>(a: Seq<S>, b: Seq<S>) -> Seq<S>
    recommends
        a.len() == b.len(),
{
    Seq::new(a.len(), |i: int| a[i].add_spec(b[i]))
}

/// Componentwise difference of two equal-length sequences.
pub open spec fn seq_sub<S: Scalar>(a: Seq<S>, b: Seq<S>) -> Seq<S>
    recommends
        a.len() == b.len(),
{
    Seq::new(a.len(), |i: int| a[i].sub_spec(b[i]))
}

/// Componentwise product of two equal-length sequences.
pub open spec fn seq_mul<S: Scalar>(a: Seq<S>, b: Seq<S>) -> Seq<S>
    recommends
        a.len() == b.len(),
{
    Seq::new(a.len(), |i: int| a[i].mul_spec(b[i]))
}

/// Every component multiplied by `k`.
pub open spec fn seq_scale<S: Scalar>(a: Seq<S>, k: S) -> Seq<S> {
    Seq::new(a.len(), |i: int| a[i].mul_spec(k))
}

/// Left fold of addition over the components, starting from zero: the order
/// in which the executable loop accumulates.
pub open spec fn sum_spec<S: Scalar>(a: Seq<S>) -> S
    decreases a.len(),
{
    if a.len() == 0 {
        S::zero_spec()
    } else {
        sum_spec(a.drop_last()).add_spec(a.last())
    }
}

/// Left fold of `max`, starting from zero (components below zero never win).
pub open spec fn max_spec<S: Scalar>(a: Seq<S>) -> S
    decreases a.len(),
{
    if a.len() == 0 {
        S::zero_spec()
    } else {
        let p = max_spec(a.drop_last());
        if p.lt_spec(a.last()) {
            a.last()
        } else {
            p
        }
    }
}

/// Left fold of `max` over component magnitudes, starting from zero.
pub open spec fn max_mag_spec<S: Scalar>(a: Seq<S>) -> S
    decreases a.len(),
{
    if a.len() == 0 {
        S::zero_spec()
    } else {
        let p = max_mag_spec(a.drop_last());
        if p.lt_spec(a.last().abs_spec()) {
            a.last().abs_spec()
        } else {
            p
        }
    }
}

/// Scalar product of two equal-length sequences (fold order of [`sum_spec`]).
pub open spec fn dot_spec<S: Scalar>(a: Seq<S>, b: Seq<S>) -> S
    recommends
        a.len() == b.len(),
{
    sum_spec(seq_mul(a, b))
}

/// Euclidean norm: square root of the accumulated component squares.
pub open spec fn norm2_spec<S: Scalar>(a: Seq<S>) -> S {
    sum_spec(seq_mul(a, a)).sqrt_spec()
}

/// The planar cross product `a0*b1 - a1*b0`.
pub open spec fn cross2_spec<S: Scalar>(a: Seq<S>, b: Seq<S>) -> S
    recommends
        a.len() == 2,
        b.len() == 2,
{
    a[0].mul_spec(b[1]).sub_spec(a[1].mul_spec(b[0]))
}

/// The spatial cross product of two 3-component sequences.
pub open spec fn cross3_spec<S: Scalar>(a: Seq<S>, b: Seq<S>) -> Seq<S>
    recommends
        a.len() == 3,
        b.len() == 3,
{
    seq![
        a[1].mul_spec(b[2]).sub_spec(a[2].mul_spec(b[1])),
        a[2].mul_spec(b[0]).sub_spec(a[0].mul_spec(b[2])),
        a[0].mul_spec(b[1]).sub_spec(a[1].mul_spec(b[0])),
    ]
}

/// Rotation of a 2-component sequence by `angle`, counterclockwise.
pub open spec fn rotate2_spec<S: Scalar>(a: Seq<S>, angle: S) -> Seq<S>
    recommends
        a.len() == 2,
{
    seq![
        a[0].mul_spec(angle.cos_spec()).sub_spec(a[1].mul_spec(angle.sin_spec())),
        a[0].mul_spec(angle.sin_spec()).add_spec(a[1].mul_spec(angle.cos_spec())),
    ]
}

/// A fixed-length vector of `L` scalars.
#[derive(Clone, Copy)]
pub struct MathVector<S, const L: usize> {
    pub data: [S; L],
}

impl<S, const L: usize> View for MathVector<S, L> {
    type V = Seq<S>;

    open spec fn view(&self) -> Seq<S> {
        self.data@
    }
}

impl<S: Scalar, const L: usize> MathVector<S, L> {
    pub fn new(data: [S; L]) -> (r: Self)
        ensures
            r@ == data@,
    {
        Self { data }
    }

    /// An explicit copy, as a named operation.
    pub fn copy(&self) -> (r: Self)
        ensures
            r@ == self@,
    {
        Self { data: self.data }
    }

    /// The fixed dimension of the vector.
    pub fn len(&self) -> (r: usize)
        ensures
            r == L,
    {
        L
    }

    pub fn add(&self, other: &Self) -> (r: Self)
        ensures
            r@ == seq_add(self@, other@),
    {
        let mut out: [S; L] = [S::zero(); L];
        let mut i: usize = 0;
        while i < L
            invariant
                i <= L,
                forall|j: int| 0 <= j < i ==> out@[j] == self@[j].add_spec(other@[j]),
            decreases L - i,
        {
            out[i] = self.data[i].add(other.data[i]);
            i += 1;
        }
        let r = Self { data: out };
        proof {
            assert(r@ =~= seq_add(self@, other@));
        }
        r
    }

    pub fn sub(&self, other: &Self) -> (r: Self)
        ensures
            r@ == seq_sub(self@, other@),
    {
        let mut out: [S; L] = [S::zero(); L];
        let mut i: usize = 0;
        while i < L
            invariant
                i <= L,
                forall|j: int| 0 <= j < i ==> out@[j] == self@[j].sub_spec(other@[j]),
            decreases L - i,
        {
            out[i] = self.data[i].sub(other.data[i]);
            i += 1;
        }
        let r = Self { data: out };
        proof {
            assert(r@ =~= seq_sub(self@, other@));
        }
        r
    }

    /// Componentwise (Hadamard) product.
    pub fn mul(&self, other: &Self) -> (r: Self)
        ensures
            r@ == seq_mul(self@, other@),
    {
        let mut out: [S; L] = [S::zero(); L];
        let mut i: usize = 0;
        while i < L
            invariant
                i <= L,
                forall|j: int| 0 <= j < i ==> out@[j] == self@[j].mul_spec(other@[j]),
            decreases L - i,
        {
            out[i] = self.data[i].mul(other.data[i]);
            i += 1;
        }
        let r = Self { data: out };
        proof {
            assert(r@ =~= seq_mul(self@, other@));
        }
        r
    }

    pub fn scale(&self, k: S) -> (r: Self)
        ensures
            r@ == seq_scale(self@, k),
    {
        let mut out: [S; L] = [S::zero(); L];
        let mut i: usize = 0;
        while i < L
            invariant
                i <= L,
                forall|j: int| 0 <= j < i ==> out@[j] == self@[j].mul_spec(k),
            decreases L - i,
        {
            out[i] = self.data[i].mul(k);
            i += 1;
        }
        let r = Self { data: out };
        proof {
            assert(r@ =~= seq_scale(self@, k));
        }
        r
    }

    /// Accumulated sum of the components, in index order from zero.
    pub fn sum(&self) -> (r: S)
        ensures
            r == sum_spec(self@),
    {
        let mut out: S = S::zero();
        let mut i: usize = 0;
        while i < L
            invariant
                i <= L,
                out == sum_spec(self@.take(i as int)),
            decreases L - i,
        {
            proof {
                assert(self@.take(i + 1).drop_last() =~= self@.take(i as int));
                assert(self@.take(i + 1).last() == self@[i as int]);
            }
            out = out.add(self.data[i]);
            i += 1;
        }
        proof {
            assert(self@.take(L as int) =~= self@);
        }
        out
    }

    pub fn dot(&self, b: &Self) -> (r: S)
        ensures
            r == dot_spec(self@, b@),
    {
        let aa = self.copy();
        let bb = b.copy();
        aa.mul(&bb).sum()
    }

    /// Largest component, or zero if every component is below zero.
    pub fn max(&self) -> (r: S)
        ensures
            r == max_spec(self@),
    {
        let mut out: S = S::zero();
        let mut i: usize = 0;
        while i < L
            invariant
                i <= L,
                out == max_spec(self@.take(i as int)),
            decreases L - i,
        {
            proof {
                assert(self@.take(i + 1).drop_last() =~= self@.take(i as int));
                assert(self@.take(i + 1).last() == self@[i as int]);
            }
            out = if out.lt(self.data[i]) {
                self.data[i]
            } else {
                out
            };
            i += 1;
        }
        proof {
            assert(self@.take(L as int) =~= self@);
        }
        out
    }

    /// Largest component magnitude.
    pub fn max_mag(&self) -> (r: S)
        ensures
            r == max_mag_spec(self@),
    {
        let mut out: S = S::zero();
        let mut i: usize = 0;
        while i < L
            invariant
                i <= L,
                out == max_mag_spec(self@.take(i as int)),
            decreases L - i,
        {
            proof {
                assert(self@.take(i + 1).drop_last() =~= self@.take(i as int));
                assert(self@.take(i + 1).last() == self@[i as int]);
            }
            let m = self.data[i].abs();
            out = if out.lt(m) {
                m
            } else {
                out
            };
            i += 1;
        }
        proof {
            assert(self@.take(L as int) =~= self@);
        }
        out
    }

    /// The default norm: Euclidean.
    pub fn norm(&self) -> (r: S)
        ensures
            r == norm2_spec(self@),
    {
        self.norm_2()
    }

    /// Sum of the components: this library's one-norm convention takes no
    /// absolute values.
    pub fn norm_1(&self) -> (r: S)
        ensures
            r == sum_spec(self@),
    {
        self.sum()
    }

    pub fn norm_2(&self) -> (r: S)
        ensures
            r == norm2_spec(self@),
    {
        self.mul(self).sum().sqrt()
    }

    /// Largest component magnitude.
    pub fn norm_infinity(&self) -> (r: S)
        ensures
            r == max_mag_spec(self@),
    {
        self.max_mag()
    }

    /// Planar cross product; only meaningful (and only callable) at
    /// dimension two.
    pub fn cross_2d(&self, in2: &MathVector<S, 2>) -> (r: S)
        requires
            L == 2,
        ensures
            r == cross2_spec(self@, in2@),
    {
        self.data[0].mul(in2.data[1]).sub(self.data[1].mul(in2.data[0]))
    }

    /// Spatial cross product; only meaningful (and only callable) at
    /// dimension three.
    pub fn cross_3d(&self, in2: &MathVector<S, 3>) -> (r: MathVector<S, 3>)
        requires
            L == 3,
        ensures
            r@ == cross3_spec(self@, in2@),
    {
        let a0 = self.data[0];
        let a1 = self.data[1];
        let a2 = self.data[2];
        let b0 = in2.data[0];
        let b1 = in2.data[1];
        let b2 = in2.data[2];
        let mut out: [S; 3] = [S::zero(); 3];
        out[0] = a1.mul(b2).sub(a2.mul(b1));
        out[1] = a2.mul(b0).sub(a0.mul(b2));
        out[2] = a0.mul(b1).sub(a1.mul(b0));
        let r = MathVector::<S, 3> { data: out };
        proof {
            assert(r@ =~= cross3_spec(self@, in2@));
        }
        r
    }

    /// Counterclockwise rotation; only meaningful (and only callable) at
    /// dimension two.
    pub fn rotate_2d(&self, angle: S) -> (r: MathVector<S, 2>)
        requires
            L == 2,
        ensures
            r@ == rotate2_spec(self@, angle),
    {
        let a0 = self.data[0];
        let a1 = self.data[1];
        let mut out: [S; 2] = [S::zero(); 2];
        out[0] = a0.mul(angle.cos()).sub(a1.mul(angle.sin()));
        out[1] = a0.mul(angle.sin()).add(a1.mul(angle.cos()));
        let r = MathVector::<S, 2> { data: out };
        proof {
            assert(r@ =~= rotate2_spec(self@, angle));
        }
        r
    }
}

} // verus!
