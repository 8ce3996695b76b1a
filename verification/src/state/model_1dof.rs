//! The vertical-only model: state `(height, velocity)`.

use vstd::prelude::*;

use crate::math::vec_ops::MathVector;
use crate::physics_mod;
use crate::physics_mod::{drag_force_spec, gravity_spec};
use crate::rocket_mod::Rocket;
use crate::scalar::Scalar;
use crate::state::ModelState;

verus! {

/// Derivative of the 1DOF state: the height changes with the velocity, the
/// velocity with drag deceleration plus gravity.
pub open spec fn deriv1_spec<S: Scalar>(u: Seq<S>, r: Rocket<S>) -> Seq<S> {
    seq![
        u[1],
        drag_force_spec(u[1], r.cd, r.area_drag).div_spec(r.mass).add_spec(gravity_spec::<S>()),
    ]
}

/// The 1 degree-of-freedom model: a rocket flying perfectly vertically, with
/// no rotation.
#[derive(Clone, Copy)]
pub struct Dof1<S> {
    /// `(height, velocity)`.
    pub u: MathVector<S, 2>,
    /// Cached `(d height / dt, d velocity / dt)`; meaningful only while
    /// `is_current` holds.
    pub dudt: MathVector<S, 2>,
    pub rocket: Rocket<S>,
    /// Whether `dudt` belongs to the current `u`.
    pub is_current: bool,
    pub time: S,
}

impl<S: Scalar> View for Dof1<S> {
    type V = ModelState<S>;

    open spec fn view(&self) -> ModelState<S> {
        ModelState { u: self.u@, time: self.time, rocket: self.rocket, dof3: false }
    }
}

impl<S: Scalar> Dof1<S> {
    /// The derivative cache, when flagged current, holds exactly the
    /// derivative of the current state.
    pub open spec fn inv(self) -> bool {
        self.is_current ==> self.dudt@ == deriv1_spec(self.u@, self.rocket)
    }

    /// A fresh model at time zero with a stale derivative cache filled with
    /// the sentinel value.
    pub fn new(u: [S; 2], rocket: Rocket<S>) -> (r: Self)
        ensures
            r@ == (ModelState { u: u@, time: S::zero_spec(), rocket, dof3: false }),
            r.inv(),
            !r.is_current,
            r.u@ == u@,
            r.dudt@[0] == S::invalid_spec(),
            r.dudt@[1] == S::invalid_spec(),
            r.time == S::zero_spec(),
    {
        Self {
            u: MathVector::new(u),
            dudt: MathVector::new([S::invalid(); 2]),
            rocket,
            is_current: false,
            time: S::zero(),
        }
    }

    pub fn get_velocity(&self) -> (r: S)
        ensures
            r == self@.u[1],
    {
        self.u.data[1]
    }

    pub fn get_height(&self) -> (r: S)
        ensures
            r == self@.u[0],
    {
        self.u.data[0]
    }

    /// The derivative of the current state, recomputed only if the cache is
    /// stale.  The model abstraction does not change.
    pub fn get_derivs_1dof(&mut self) -> (r: MathVector<S, 2>)
        requires
            old(self).inv(),
        ensures
            final(self)@ == old(self)@,
            final(self).inv(),
            final(self).is_current,
            r == final(self).dudt,
            r@ == old(self)@.deriv(),
    {
        if !self.is_current {
            self.update_state_derivatives();
        }
        self.dudt
    }

    pub fn get_time_1dof(&self) -> (r: S)
        ensures
            r == self@.time,
    {
        self.time
    }

    /// The row this model logs: height, velocity, and the vertical
    /// acceleration of the current state (cache refreshed first).
    pub fn get_logrow(&mut self) -> (r: MathVector<S, 3>)
        requires
            old(self).inv(),
        ensures
            final(self)@ == old(self)@,
            final(self).inv(),
            r@ == old(self)@.logrow(),
    {
        let d = self.get_derivs_1dof();
        let r = MathVector::new([self.u.data[0], self.u.data[1], d.data[1]]);
        proof {
            assert(r@ =~= self@.logrow());
        }
        r
    }

    /// Apply an increment to the state and advance time; the derivative
    /// cache becomes stale.
    pub fn update_state(&mut self, du: MathVector<S, 2>, dt: S)
        ensures
            final(self)@ == old(self)@.updated(du@, dt),
            final(self).inv(),
            !final(self).is_current,
            final(self).dudt == old(self).dudt,
    {
        self.u = self.u.add(&du);
        self.time = self.time.add(dt);
        self.is_current = false;
    }

    /// Recompute the derivative cache for the current state.
    pub fn update_state_derivatives(&mut self)
        ensures
            final(self)@ == old(self)@,
            final(self).inv(),
            final(self).is_current,
            final(self).dudt@ == old(self)@.deriv(),
    {
        let force_drag = physics_mod::calc_drag_force(
            self.u.data[1],
            self.rocket.cd,
            self.rocket.area_drag,
        );
        let g = physics_mod::gravity::<S>();

        // d(height)/dt is the velocity
        let dhdt = self.u.data[1];

        // acceleration: drag force over mass, plus gravity
        let dvdt = force_drag.div(self.rocket.mass).add(g);

        self.dudt = MathVector::new([dhdt, dvdt]);
        self.is_current = true;
        proof {
            assert(self.dudt@ =~= deriv1_spec(self.u@, self.rocket));
        }
    }
}

} // verus!
