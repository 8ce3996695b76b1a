//! The planar model: state `(x, y, angle, x-velocity, y-velocity, angular
//! velocity)`, with aerodynamic forces acting at the center of pressure.

use vstd::prelude::*;

use crate::math::vec_ops::{
    cross2_spec, dot_spec, norm2_spec, rotate2_spec, seq_add, seq_scale, MathVector,
};
use crate::physics_mod;
use crate::physics_mod::{drag_force_spec, gravity_spec, lift_force_spec};
use crate::rocket_mod::Rocket;
use crate::scalar::Scalar;
use crate::state::ModelState;

verus! {

/// Derivative of the 3DOF state.
///
/// Conventions: the body angle is measured counterclockwise, with the body
/// orientation unit vector `(-sin angle, cos angle)`; the angle of attack is
/// signed (positive when the body points counterclockwise of the velocity)
/// and enters the lift formula signed, while the lift direction is the
/// velocity rotated a quarter turn toward the side the sign selects.  At
/// exactly zero speed the aerodynamic terms are skipped entirely, leaving
/// gravity as the only acceleration.
pub open spec fn deriv3_spec<S: Scalar>(u: Seq<S>, r: Rocket<S>) -> Seq<S> {
    let orientation = seq![
        S::from_ratio_spec(-1i64, 1).mul_spec(u[2].sin_spec()),
        S::from_ratio_spec(1, 1).mul_spec(u[2].cos_spec()),
    ];
    let velocity = seq![u[3], u[4]];
    let vmag = norm2_spec(velocity);
    if vmag.is_zero_spec() {
        seq![u[3], u[4], u[5], S::zero_spec(), gravity_spec::<S>(), S::zero_spec()]
    } else {
        let alpha_dir = cross2_spec(velocity, orientation).signum_spec();
        let vel_comp_in_ori = dot_spec(velocity, orientation);
        let alpha = vel_comp_in_ori.div_spec(vmag).acos_spec().mul_spec(alpha_dir);
        let force_drag = drag_force_spec(vmag, r.cd, r.area_drag);
        let drag_vec = seq_scale(velocity, force_drag.div_spec(vmag));
        let force_lift = lift_force_spec(vmag, r.cl_a, alpha, r.area_drag);
        let rot_angle = S::from_ratio_spec(1, 2).mul_spec(S::pi_spec()).mul_spec(alpha_dir);
        let lift_vec = seq_scale(rotate2_spec(velocity, rot_angle), force_lift.div_spec(vmag));
        let sum_force = seq_add(lift_vec, drag_vec);
        let moment_arm = seq_scale(orientation, r.stab_margin_dimensional);
        let sum_moment = cross2_spec(sum_force, moment_arm);
        let accel = seq_scale(sum_force, S::from_ratio_spec(1, 1).div_spec(r.mass));
        seq![
            u[3],
            u[4],
            u[5],
            accel[0],
            accel[1].add_spec(gravity_spec::<S>()),
            sum_moment.div_spec(r.inertia_z),
        ]
    }
}

/// The 3 degree-of-freedom model: two spatial dimensions (`x` horizontal,
/// `y` vertical) plus the rotation of the rocket within that plane.
#[derive(Clone, Copy)]
pub struct Dof3<S> {
    /// `(x, y, angle, x-velocity, y-velocity, angular velocity)`.
    pub u: MathVector<S, 6>,
    /// Cached derivative of `u`; meaningful only while `is_current` holds.
    pub dudt: MathVector<S, 6>,
    pub rocket: Rocket<S>,
    /// Whether `dudt` belongs to the current `u`.
    pub is_current: bool,
    pub time: S,
}

impl<S: Scalar> View for Dof3<S> {
    type V = ModelState<S>;

    open spec fn view(&self) -> ModelState<S> {
        ModelState { u: self.u@, time: self.time, rocket: self.rocket, dof3: true }
    }
}

impl<S: Scalar> Dof3<S> {
    /// The derivative cache, when flagged current, holds exactly the
    /// derivative of the current state.
    pub open spec fn inv(self) -> bool {
        self.is_current ==> self.dudt@ == deriv3_spec(self.u@, self.rocket)
    }

    /// A fresh model at time zero with a stale derivative cache filled with
    /// the sentinel value.
    pub fn new(u: [S; 6], rocket: Rocket<S>) -> (r: Self)
        ensures
            r@ == (ModelState { u: u@, time: S::zero_spec(), rocket, dof3: true }),
            r.inv(),
            !r.is_current,
            r.u@ == u@,
            r.time == S::zero_spec(),
            forall|i: int| 0 <= i < 6 ==> r.dudt@[i] == S::invalid_spec(),
    {
        Self {
            u: MathVector::new(u),
            dudt: MathVector::new([S::invalid(); 6]),
            rocket,
            is_current: false,
            time: S::zero(),
        }
    }

    pub fn get_y_velocity(&self) -> (r: S)
        ensures
            r == self@.u[4],
    {
        self.u.data[4]
    }

    pub fn get_height(&self) -> (r: S)
        ensures
            r == self@.u[1],
    {
        self.u.data[1]
    }

    /// The derivative of the current state, recomputed only if the cache is
    /// stale.  The model abstraction does not change.
    pub fn get_derivs_3dof(&mut self) -> (r: MathVector<S, 6>)
        requires
            old(self).inv(),
        ensures
            final(self)@ == old(self)@,
            final(self).inv(),
            final(self).is_current,
            r == final(self).dudt,
            r@ == old(self)@.deriv(),
    {
        if !self.is_current {
            self.update_state_derivatives();
        }
        self.dudt
    }

    pub fn get_time_3dof(&self) -> (r: S)
        ensures
            r == self@.time,
    {
        self.time
    }

    /// The row this model logs: the six state variables followed by the
    /// three acceleration terms of the current state (cache refreshed
    /// first).
    pub fn get_logrow(&mut self) -> (r: MathVector<S, 9>)
        requires
            old(self).inv(),
        ensures
            final(self)@ == old(self)@,
            final(self).inv(),
            r@ == old(self)@.logrow(),
    {
        let d = self.get_derivs_3dof();
        let r = MathVector::new(
            [
                self.u.data[0],
                self.u.data[1],
                self.u.data[2],
                self.u.data[3],
                self.u.data[4],
                self.u.data[5],
                d.data[3],
                d.data[4],
                d.data[5],
            ],
        );
        proof {
            assert(r@ =~= self@.logrow());
        }
        r
    }

    /// Apply an increment to the state and advance time; the derivative
    /// cache becomes stale.
    pub fn update_state(&mut self, du: MathVector<S, 6>, dt: S)
        ensures
            final(self)@ == old(self)@.updated(du@, dt),
            final(self).inv(),
            !final(self).is_current,
            final(self).dudt == old(self).dudt,
    {
        self.u = self.u.add(&du);
        self.time = self.time.add(dt);
        self.is_current = false;
    }

    /// Recompute the derivative cache for the current state.
    pub fn update_state_derivatives(&mut self)
        ensures
            final(self)@ == old(self)@,
            final(self).inv(),
            final(self).is_current,
            final(self).dudt@ == old(self)@.deriv(),
    {
        // the rocket's orientation and velocity as planar vectors
        let ox = S::from_ratio(-1, 1).mul(self.u.data[2].sin());
        let oy = S::from_ratio(1, 1).mul(self.u.data[2].cos());
        let orientation: MathVector<S, 2> = MathVector::new([ox, oy]);
        let velocity: MathVector<S, 2> = MathVector::new([self.u.data[3], self.u.data[4]]);

        let vmag = velocity.norm_2();

        let ghost uview = self.u@;
        proof {
            assert(orientation@ =~= seq![ox, oy]);
            assert(velocity@ =~= seq![uview[3], uview[4]]);
        }

        if vmag.is_zero() {
            // at rest relative to the air: no aerodynamic force, only gravity
            self.dudt = MathVector::new(
                [
                    self.u.data[3],
                    self.u.data[4],
                    self.u.data[5],
                    S::zero(),
                    physics_mod::gravity::<S>(),
                    S::zero(),
                ],
            );
            self.is_current = true;
            proof {
                assert(self.dudt@ =~= deriv3_spec(uview, self.rocket));
            }
            return ;
        }

        // angle of attack: sign from the cross product (positive when the
        // body points counterclockwise of the velocity), magnitude from the
        // angle between velocity and orientation
        let cross_prod = velocity.cross_2d(&orientation);
        let alpha_dir = cross_prod.signum();
        let vel_comp_in_ori = velocity.dot(&orientation);
        let alpha = vel_comp_in_ori.div(vmag).acos().mul(alpha_dir);

        // forces: drag along the velocity, lift a quarter turn to the side
        // the angle-of-attack sign selects
        let force_drag = physics_mod::calc_drag_force(vmag, self.rocket.cd, self.rocket.area_drag);
        let drag_vec = velocity.scale(force_drag.div(vmag));
        let force_lift = physics_mod::calc_lift_force(
            vmag,
            self.rocket.cl_a,
            alpha,
            self.rocket.area_drag,
        );
        let rot_angle = S::from_ratio(1, 2).mul(S::pi()).mul(alpha_dir);
        let lift_vec = velocity.rotate_2d(rot_angle).scale(force_lift.div(vmag));
        let sum_force = lift_vec.add(&drag_vec);

        // restoring moment: aerodynamic force acting at the center of
        // pressure, offset from the center of mass along the body axis
        let moment_arm = orientation.scale(self.rocket.stab_margin_dimensional);
        let sum_moment = sum_force.cross_2d(&moment_arm);

        // linear acceleration, with gravity added to the vertical component
        let accel = sum_force.scale(S::from_ratio(1, 1).div(self.rocket.mass));
        let dvxdt = accel.data[0];
        let dvydt = accel.data[1].add(physics_mod::gravity::<S>());

        // angular acceleration
        let domegadt = sum_moment.div(self.rocket.inertia_z);

        self.dudt = MathVector::new(
            [self.u.data[3], self.u.data[4], self.u.data[5], dvxdt, dvydt, domegadt],
        );
        self.is_current = true;
        proof {
            assert(self.dudt@ =~= deriv3_spec(uview, self.rocket));
        }
    }
}

} // verus!
