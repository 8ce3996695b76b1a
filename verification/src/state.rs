//! The state-space models and their tagged-variant wrappers.
//!
//! The mathematical content of a model is captured by [`ModelState`]: the
//! current state vector, the elapsed time, the rocket parameters and which
//! model is active.  The executable structs additionally carry a lazily
//! cached derivative vector guarded by a dirty flag; the cache is invisible
//! to the abstraction (the view of a model never changes when the cache is
//! refreshed) and is kept truthful by the `inv` well-formedness predicate.

pub mod model_1dof;
pub mod model_3dof;
pub mod state_vector;

use vstd::prelude::*;

use crate::math::vec_ops::{seq_add, MathVector};
use crate::rocket_mod::Rocket;
use crate::scalar::Scalar;
use crate::state::model_1dof::{deriv1_spec, Dof1};
use crate::state::model_3dof::{deriv3_spec, Dof3};
use crate::state::state_vector::StateVector;

verus! {

/// The abstraction of a state-space model: everything the simulation's
/// results depend on, and nothing of the derivative cache.
pub struct ModelState<S> {
    /// The state variables: `(height, velocity)` for 1DOF,
    /// `(x, y, angle, x-velocity, y-velocity, angular velocity)` for 3DOF.
    pub u: Seq<S>,
    /// Elapsed simulation time.
    pub time: S,
    /// The rocket parameters the model was built with.
    pub rocket: Rocket<S>,
    /// Whether the active model is the planar 3DOF one.
    pub dof3: bool,
}

impl<S: Scalar> ModelState<S> {
    /// Number of state variables of the active model.
    pub open spec fn ndim(self) -> nat {
        if self.dof3 {
            6
        } else {
            2
        }
    }

    /// The state vector has the dimension of the active model.
    pub open spec fn wf(self) -> bool {
        self.u.len() == self.ndim()
    }

    /// Time derivative of the state vector, as the active model computes it.
    pub open spec fn deriv(self) -> Seq<S> {
        if self.dof3 {
            deriv3_spec(self.u, self.rocket)
        } else {
            deriv1_spec(self.u, self.rocket)
        }
    }

    /// Current altitude: height for 1DOF, the `y` coordinate for 3DOF.
    pub open spec fn altitude(self) -> S {
        if self.dof3 {
            self.u[1]
        } else {
            self.u[0]
        }
    }

    /// Current vertical velocity: the velocity for 1DOF, the `y` velocity
    /// for 3DOF.
    pub open spec fn vertical_velocity(self) -> S {
        if self.dof3 {
            self.u[4]
        } else {
            self.u[1]
        }
    }

    /// The row the model contributes to the trajectory log: state plus
    /// current acceleration terms.
    pub open spec fn logrow(self) -> Seq<S> {
        if self.dof3 {
            self.u + self.deriv().subrange(3, 6)
        } else {
            seq![self.u[0], self.u[1], self.deriv()[1]]
        }
    }

    /// The model after an increment `du` is applied and time advances by
    /// `dt`.
    pub open spec fn updated(self, du: Seq<S>, dt: S) -> ModelState<S> {
        ModelState {
            u: seq_add(self.u, du),
            time: self.time.add_spec(dt),
            rocket: self.rocket,
            dof3: self.dof3,
        }
    }
}

/// Tagged union over the available state-space models.
#[derive(Clone, Copy)]
pub enum State<S> {
    OneDOF(Dof1<S>),
    ThreeDOF(Dof3<S>),
}

impl<S: Scalar> View for State<S> {
    type V = ModelState<S>;

    open spec fn view(&self) -> ModelState<S> {
        match *self {
            State::OneDOF(d) => d@,
            State::ThreeDOF(d) => d@,
        }
    }
}

impl<S: Scalar> State<S> {
    /// The derivative cache of the active model is truthful when flagged
    /// current.
    pub open spec fn inv(self) -> bool {
        match self {
            State::OneDOF(d) => d.inv(),
            State::ThreeDOF(d) => d.inv(),
        }
    }

    /// Number of state variables of the active model.
    pub fn get_ndim(&self) -> (r: usize)
        ensures
            r == self@.ndim(),
    {
        match self {
            State::OneDOF(_) => 2usize,
            State::ThreeDOF(_) => 6usize,
        }
    }

    /// Width of the log row the active model produces.
    pub fn nlog(&self) -> (r: usize)
        ensures
            r == self@.logrow().len(),
    {
        match self {
            State::OneDOF(_) => 3usize,
            State::ThreeDOF(_) => 9usize,
        }
    }

    /// The current state variables, wrapped in the matching
    /// [`StateVector`] variant.
    pub fn get_state_vec(&self) -> (r: StateVector<S>)
        ensures
            r.is3() == self@.dof3,
            r.vec_seq() == self@.u,
    {
        match self {
            State::OneDOF(d) => StateVector::OneDOF(d.u),
            State::ThreeDOF(d) => StateVector::ThreeDOF(d.u),
        }
    }

    pub fn get_altitude(&self) -> (r: S)
        ensures
            r == self@.altitude(),
    {
        match self {
            State::OneDOF(d) => d.get_height(),
            State::ThreeDOF(d) => d.get_height(),
        }
    }

    pub fn get_vertical_velocity(&self) -> (r: S)
        ensures
            r == self@.vertical_velocity(),
    {
        match self {
            State::OneDOF(d) => d.get_velocity(),
            State::ThreeDOF(d) => d.get_y_velocity(),
        }
    }

    pub fn get_time(&self) -> (r: S)
        ensures
            r == self@.time,
    {
        match self {
            State::OneDOF(d) => d.get_time_1dof(),
            State::ThreeDOF(d) => d.get_time_3dof(),
        }
    }

    /// The derivative of the current state, recomputing the cache if stale.
    /// The model abstraction is unchanged: only the cache may move.
    pub fn get_derivs(&mut self) -> (r: StateVector<S>)
        requires
            old(self).inv(),
        ensures
            final(self)@ == old(self)@,
            final(self).inv(),
            r.is3() == old(self)@.dof3,
            r.vec_seq() == old(self)@.deriv(),
    {
        match self {
            State::OneDOF(d) => StateVector::OneDOF(d.get_derivs_1dof()),
            State::ThreeDOF(d) => StateVector::ThreeDOF(d.get_derivs_3dof()),
        }
    }

    /// Apply an increment computed by the integrator and advance time by
    /// `dt`.  The increment must come in the variant of the active model.
    pub fn update(&mut self, du_vec: StateVector<S>, dt: S)
        requires
            old(self).inv(),
            du_vec.is3() == old(self)@.dof3,
        ensures
            final(self)@ == old(self)@.updated(du_vec.vec_seq(), dt),
            final(self).inv(),
    {
        match (self, du_vec) {
            (State::OneDOF(d), StateVector::OneDOF(du)) => d.update_state(du, dt),
            (State::ThreeDOF(d), StateVector::ThreeDOF(du)) => d.update_state(du, dt),
            _ => {
                vstd::pervasive::unreached()
            },
        }
    }

    /// The row to append to the trajectory log for the current state,
    /// refreshing the derivative cache so the logged acceleration belongs to
    /// this state.
    pub fn get_logrow(&mut self) -> (r: Vec<S>)
        requires
            old(self).inv(),
        ensures
            final(self)@ == old(self)@,
            final(self).inv(),
            r@ == old(self)@.logrow(),
    {
        match self {
            State::OneDOF(d) => {
                let row: MathVector<S, 3> = d.get_logrow();
                let mut v: Vec<S> = Vec::new();
                v.push(row.data[0]);
                v.push(row.data[1]);
                v.push(row.data[2]);
                proof {
                    assert(v@ =~= row@);
                }
                v
            },
            State::ThreeDOF(d) => {
                let row: MathVector<S, 9> = d.get_logrow();
                let mut v: Vec<S> = Vec::new();
                let mut i: usize = 0;
                while i < 9
                    invariant
                        i <= 9,
                        v@ == row@.take(i as int),
                    decreases 9 - i,
                {
                    v.push(row.data[i]);
                    proof {
                        assert(v@ =~= row@.take(i + 1));
                    }
                    i += 1;
                }
                proof {
                    assert(row@.take(9) =~= row@);
                }
                v
            },
        }
    }
}

} // verus!
