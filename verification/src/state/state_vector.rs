//! Tagged numeric vectors passed between the integrator and the models.

use vstd::prelude::*;

use crate::math::vec_ops::{
    cross2_spec, dot_spec, rotate2_spec, seq_add, seq_mul, seq_scale, seq_sub, MathVector,
};
use crate::scalar::Scalar;

verus! {

/// A state-space vector in the shape of one of the models: increments and
/// derivative snapshots travel in this type so that the integrator never
/// sees a model's internals.  Arithmetic between mismatched variants is a
/// programming error and is ruled out by precondition.
#[derive(Clone, Copy)]
pub enum StateVector<S> {
    OneDOF(MathVector<S, 2>),
    ThreeDOF(MathVector<S, 6>),
}

impl<S: Scalar> StateVector<S> {
    /// Whether this is the 3DOF (six component) variant.
    pub open spec fn is3(self) -> bool {
        self is ThreeDOF
    }

    /// The components, independent of the variant.
    pub open spec fn vec_seq(self) -> Seq<S> {
        match self {
            StateVector::OneDOF(v) => v@,
            StateVector::ThreeDOF(v) => v@,
        }
    }

    /// Componentwise sum; both operands must be of the same variant.
    pub fn add(self, rhs: Self) -> (r: Self)
        requires
            self.is3() == rhs.is3(),
        ensures
            r.is3() == self.is3(),
            r.vec_seq() == seq_add(self.vec_seq(), rhs.vec_seq()),
    {
        match (self, rhs) {
            (StateVector::OneDOF(a), StateVector::OneDOF(b)) => StateVector::OneDOF(a.add(&b)),
            (StateVector::ThreeDOF(a), StateVector::ThreeDOF(b)) => StateVector::ThreeDOF(
                a.add(&b),
            ),
            _ => vstd::pervasive::unreached(),
        }
    }

    /// Componentwise difference; both operands must be of the same variant.
    pub fn sub(self, rhs: Self) -> (r: Self)
        requires
            self.is3() == rhs.is3(),
        ensures
            r.is3() == self.is3(),
            r.vec_seq() == seq_sub(self.vec_seq(), rhs.vec_seq()),
    {
        match (self, rhs) {
            (StateVector::OneDOF(a), StateVector::OneDOF(b)) => StateVector::OneDOF(a.sub(&b)),
            (StateVector::ThreeDOF(a), StateVector::ThreeDOF(b)) => StateVector::ThreeDOF(
                a.sub(&b),
            ),
            _ => vstd::pervasive::unreached(),
        }
    }

    /// Componentwise product; both operands must be of the same variant.
    pub fn mul(self, rhs: Self) -> (r: Self)
        requires
            self.is3() == rhs.is3(),
        ensures
            r.is3() == self.is3(),
            r.vec_seq() == seq_mul(self.vec_seq(), rhs.vec_seq()),
    {
        match (self, rhs) {
            (StateVector::OneDOF(a), StateVector::OneDOF(b)) => StateVector::OneDOF(a.mul(&b)),
            (StateVector::ThreeDOF(a), StateVector::ThreeDOF(b)) => StateVector::ThreeDOF(
                a.mul(&b),
            ),
            _ => vstd::pervasive::unreached(),
        }
    }

    /// Every component multiplied by `k`.
    pub fn scale(self, k: S) -> (r: Self)
        ensures
            r.is3() == self.is3(),
            r.vec_seq() == seq_scale(self.vec_seq(), k),
    {
        match self {
            StateVector::OneDOF(a) => StateVector::OneDOF(a.scale(k)),
            StateVector::ThreeDOF(a) => StateVector::ThreeDOF(a.scale(k)),
        }
    }

    /// Scalar product; both operands must be of the same variant.
    pub fn dot(self, rhs: Self) -> (r: S)
        requires
            self.is3() == rhs.is3(),
        ensures
            r == dot_spec(self.vec_seq(), rhs.vec_seq()),
    {
        match (self, rhs) {
            (StateVector::OneDOF(a), StateVector::OneDOF(b)) => a.dot(&b),
            (StateVector::ThreeDOF(a), StateVector::ThreeDOF(b)) => a.dot(&b),
            _ => vstd::pervasive::unreached(),
        }
    }

    /// Planar cross product with an explicit 2-vector; only the 1DOF
    /// (two component) variant supports it.
    pub fn cross_2d(self, in2: &MathVector<S, 2>) -> (r: S)
        requires
            !self.is3(),
        ensures
            r == cross2_spec(self.vec_seq(), in2@),
    {
        match self {
            StateVector::OneDOF(a) => a.cross_2d(in2),
            StateVector::ThreeDOF(_) => vstd::pervasive::unreached(),
        }
    }

    /// Planar rotation; only the 1DOF (two component) variant supports it.
    pub fn rotate_2d(self, angle: S) -> (r: MathVector<S, 2>)
        requires
            !self.is3(),
        ensures
            r@ == rotate2_spec(self.vec_seq(), angle),
    {
        match self {
            StateVector::OneDOF(a) => a.rotate_2d(angle),
            StateVector::ThreeDOF(_) => vstd::pervasive::unreached(),
        }
    }

    /// The components as a plain vector.
    pub fn as_array(&self) -> (r: Vec<S>)
        ensures
            r@ == self.vec_seq(),
    {
        match self {
            StateVector::OneDOF(a) => {
                let mut v: Vec<S> = Vec::new();
                v.push(a.data[0]);
                v.push(a.data[1]);
                proof {
                    assert(v@ =~= a@);
                }
                v
            },
            StateVector::ThreeDOF(a) => {
                let mut v: Vec<S> = Vec::new();
                let mut i: usize = 0;
                while i < 6
                    invariant
                        i <= 6,
                        v@ == a@.take(i as int),
                    decreases 6 - i,
                {
                    v.push(a.data[i]);
                    proof {
                        assert(v@ =~= a@.take(i + 1));
                    }
                    i += 1;
                }
                proof {
                    assert(a@.take(6) =~= a@);
                }
                v
            },
        }
    }
}

} // verus!
