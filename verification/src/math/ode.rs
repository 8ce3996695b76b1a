//! The ODE integration schemes: explicit Euler and the 3-stage
//! strong-stability-preserving Runge-Kutta method, each a pure function from
//! a model and a step size to the advanced model.

use vstd::prelude::*;

use crate::math::vec_ops::{seq_add, seq_scale};
use crate::scalar::Scalar;
use crate::state::{ModelState, State};
use crate::ConfigError;

verus! {

/// Step-size configuration of a fixed-step scheme.
#[derive(Clone, Copy)]
pub struct FixedTimeStep<S> {
    /// Timestep size used for every iteration.
    pub dt: S,
}

impl<S: Copy> FixedTimeStep<S> {
    pub fn new(dt: S) -> (r: Self)
        ensures
            r == (FixedTimeStep { dt }),
    {
        Self { dt }
    }
}

/// Configuration of the declared (but unimplemented) adaptive scheme.
#[derive(Clone, Copy)]
pub struct AdaptiveTimeStep<S> {
    /// Initial timestep guess.
    pub dt: S,
    /// Minimum timestep.
    pub dt_min: S,
    /// Maximum timestep.
    pub dt_max: S,
    /// Absolute error tolerance.
    pub absolute_error_tolerance: S,
    /// Relative error tolerance.
    pub relative_error_tolerance: S,
}

impl<S: Copy> AdaptiveTimeStep<S> {
    pub fn new(dt: S, dt_min: S, dt_max: S, absolute_error_tolerance: S, relative_error_tolerance: S) -> (r: Self)
        ensures
            r == (AdaptiveTimeStep {
                dt,
                dt_min,
                dt_max,
                absolute_error_tolerance,
                relative_error_tolerance,
            }),
    {
        Self { dt, dt_min, dt_max, absolute_error_tolerance, relative_error_tolerance }
    }
}

/// A step-size configuration for either family of schemes.
#[derive(Clone, Copy)]
pub enum TimeStepOptions<S> {
    Fixed(FixedTimeStep<S>),
    Adaptive(AdaptiveTimeStep<S>),
}

/// An integration scheme together with its step configuration.
#[derive(Clone, Copy)]
pub enum OdeMethod<S> {
    Euler(FixedTimeStep<S>),
    RK3(FixedTimeStep<S>),
    RK45(AdaptiveTimeStep<S>),
}

/// One explicit Euler step: the state advances by its derivative times `dt`.
pub open spec fn euler_step_spec<S: Scalar>(m: ModelState<S>, dt: S) -> ModelState<S> {
    m.updated(seq_scale(m.deriv(), dt), dt)
}

/// One 3-stage strong-stability-preserving Runge-Kutta step.  The two probe
/// states are discarded copies whose time never advances; only the final
/// commit moves time by `dt`.
pub open spec fn rk3_step_spec<S: Scalar>(m: ModelState<S>, dt: S) -> ModelState<S> {
    let k1 = m.deriv();
    let probe1 = m.updated(seq_scale(k1, dt), S::zero_spec());
    let k2 = probe1.deriv();
    let coeff = S::from_ratio_spec(1, 4).mul_spec(dt);
    let du2 = seq_add(seq_scale(k1, coeff), seq_scale(k2, coeff));
    let probe2 = m.updated(du2, S::zero_spec());
    let k3 = probe2.deriv();
    let coeff2 = dt.mul_spec(S::from_ratio_spec(1, 1)).div_spec(S::from_ratio_spec(6, 1));
    let du3 = seq_add(
        seq_add(seq_scale(k1, coeff2), seq_scale(k2, coeff2)),
        seq_scale(k3, S::from_ratio_spec(4, 1).mul_spec(coeff2)),
    );
    m.updated(du3, dt)
}

impl<S: Scalar> OdeMethod<S> {
    /// Whether this is one of the two implemented fixed-step schemes.
    pub open spec fn is_fixed_step(self) -> bool {
        self is Euler || self is RK3
    }

    /// The model after one step of this scheme (identity for the
    /// unimplemented adaptive scheme, which never runs).
    pub open spec fn step_spec(self, m: ModelState<S>) -> ModelState<S> {
        match self {
            OdeMethod::Euler(f) => euler_step_spec(m, f.dt),
            OdeMethod::RK3(f) => rk3_step_spec(m, f.dt),
            OdeMethod::RK45(_) => m,
        }
    }

    /// Execute one timestep of the scheme on `state`.  The two fixed-step
    /// schemes succeed and advance the state exactly as
    /// [`OdeMethod::step_spec`] says; selecting the adaptive scheme is an
    /// explicit error and leaves the state untouched.
    pub fn timestep(&self, state: &mut State<S>) -> (r: Result<(), ConfigError>)
        requires
            old(state).inv(),
        ensures
            final(state).inv(),
            self.is_fixed_step() ==> r is Ok && final(state)@ == self.step_spec(old(state)@),
            !self.is_fixed_step() ==> r == Result::<(), ConfigError>::Err(
                ConfigError::UnimplementedMethod,
            ) && *final(state) == *old(state),
    {
        match self {
            OdeMethod::Euler(f) => {
                Self::explicit_euler(state, f.dt);
                Ok(())
            },
            OdeMethod::RK3(f) => {
                Self::runge_kutta_3(state, f.dt);
                Ok(())
            },
            OdeMethod::RK45(cfg) => Self::runge_kutta_45(state, cfg),
        }
    }

    /// The explicit Euler scheme: multiply the derivative by the timestep.
    fn explicit_euler(state: &mut State<S>, dt: S)
        requires
            old(state).inv(),
        ensures
            final(state).inv(),
            final(state)@ == euler_step_spec(old(state)@, dt),
    {
        let dudt = state.get_derivs();
        let du = dudt.scale(dt);
        state.update(du, dt)
    }

    /// The 3-stage strong-stability-preserving (total-variation-diminishing)
    /// Runge-Kutta scheme.  Intermediate probe states are discarded copies;
    /// time advances only at the final commit.
    fn runge_kutta_3(state: &mut State<S>, dt: S)
        requires
            old(state).inv(),
        ensures
            final(state).inv(),
            final(state)@ == rk3_step_spec(old(state)@, dt),
    {
        let mut state_rk: State<S> = *state;

        // stage 1
        let dudt = state_rk.get_derivs();
        let du = dudt.scale(dt);
        state_rk.update(du, S::zero());

        // stage 2
        let dudt2 = state_rk.get_derivs();
        let coeff = S::from_ratio(1, 4).mul(dt);
        let du2 = dudt.scale(coeff).add(dudt2.scale(coeff));
        state_rk = *state;
        state_rk.update(du2, S::zero());

        // stage 3
        let dudt3 = state_rk.get_derivs();
        let coeff2 = dt.mul(S::from_ratio(1, 1)).div(S::from_ratio(6, 1));
        let mut du3 = dudt.scale(coeff2);
        du3 = du3.add(dudt2.scale(coeff2));
        du3 = du3.add(dudt3.scale(S::from_ratio(4, 1).mul(coeff2)));
        state.update(du3, dt);
    }

    /// The adaptive scheme is declared in the configuration surface but
    /// intentionally not implemented: selecting it reports an error rather
    /// than silently falling back to another scheme.
    fn runge_kutta_45(state: &mut State<S>, _cfg: &AdaptiveTimeStep<S>) -> (r: Result<
        (),
        ConfigError,
    >)
        ensures
            r == Result::<(), ConfigError>::Err(ConfigError::UnimplementedMethod),
            *final(state) == *old(state),
    {
        Err(ConfigError::UnimplementedMethod)
    }
}

/// A sequence of `n` zeros: the derivative field of the zero-force limit.
pub open spec fn zero_seq<S: Scalar>(n: nat) -> Seq<S> {
    Seq::new(n, |i: int| S::zero_spec())
}

/// The model after `n` steps of `method`.
pub open spec fn iterate_spec<S: Scalar>(m: ModelState<S>, method: OdeMethod<S>, n: nat) -> ModelState<S>
    decreases n,
{
    if n == 0 {
        m
    } else {
        method.step_spec(iterate_spec(m, method, (n - 1) as nat))
    }
}

proof fn lemma_zero_derivative_step<S: Scalar>(m: ModelState<S>, method: OdeMethod<S>)
    requires
        method.is_fixed_step(),
        m.deriv() == zero_seq::<S>(m.u.len()),
    ensures
        method.step_spec(m).u == m.u,
        method.step_spec(m).rocket == m.rocket,
        method.step_spec(m).dof3 == m.dof3,
        method.step_spec(m).deriv() == m.deriv(),
{
    let k = m.deriv();
    let n = m.u.len();
    match method {
        OdeMethod::Euler(f) => {
            let du = seq_scale(k, f.dt);
            assert forall|i: int| 0 <= i < n implies seq_add(m.u, du)[i] == m.u[i] by {
                S::zero_identity_laws(f.dt);
                S::zero_identity_laws(m.u[i]);
            }
            assert(seq_add(m.u, du) =~= m.u);
        },
        OdeMethod::RK3(f) => {
            let dt = f.dt;
            let probe1 = m.updated(seq_scale(k, dt), S::zero_spec());
            assert forall|i: int| 0 <= i < n implies seq_add(m.u, seq_scale(k, dt))[i] == m.u[i] by {
                S::zero_identity_laws(dt);
                S::zero_identity_laws(m.u[i]);
            }
            assert(probe1.u =~= m.u);
            assert(probe1.deriv() == k);
            let coeff = S::from_ratio_spec(1, 4).mul_spec(dt);
            let du2 = seq_add(seq_scale(k, coeff), seq_scale(k, coeff));
            assert forall|i: int| 0 <= i < n implies seq_add(m.u, du2)[i] == m.u[i] by {
                S::zero_identity_laws(coeff);
                S::zero_identity_laws(S::zero_spec());
                S::zero_identity_laws(m.u[i]);
            }
            let probe2 = m.updated(du2, S::zero_spec());
            assert(probe2.u =~= m.u);
            assert(probe2.deriv() == k);
            let coeff2 = dt.mul_spec(S::from_ratio_spec(1, 1)).div_spec(S::from_ratio_spec(6, 1));
            let c4 = S::from_ratio_spec(4, 1).mul_spec(coeff2);
            let du3 = seq_add(
                seq_add(seq_scale(k, coeff2), seq_scale(k, coeff2)),
                seq_scale(k, c4),
            );
            assert forall|i: int| 0 <= i < n implies seq_add(m.u, du3)[i] == m.u[i] by {
                S::zero_identity_laws(coeff2);
                S::zero_identity_laws(c4);
                S::zero_identity_laws(S::zero_spec());
                S::zero_identity_laws(m.u[i]);
            }
            assert(seq_add(m.u, du3) =~= m.u);
        },
        OdeMethod::RK45(_) => {},
    }
}

/// Pure inertia: a model whose derivative is identically zero (the
/// zero-force limit: no gravity, no aerodynamic force, no motion) is an
/// exact fixed point of both fixed-step schemes — position and velocity
/// stay exactly constant across any number of steps.
pub proof fn lemma_zero_derivative_inertia<S: Scalar>(
    m: ModelState<S>,
    method: OdeMethod<S>,
    n: nat,
)
    requires
        method.is_fixed_step(),
        m.deriv() == zero_seq::<S>(m.u.len()),
    ensures
        iterate_spec(m, method, n).u == m.u,
        iterate_spec(m, method, n).rocket == m.rocket,
        iterate_spec(m, method, n).dof3 == m.dof3,
        iterate_spec(m, method, n).deriv() == m.deriv(),
    decreases n,
{
    if n > 0 {
        lemma_zero_derivative_inertia(m, method, (n - 1) as nat);
        lemma_zero_derivative_step(iterate_spec(m, method, (n - 1) as nat), method);
    }
}

} // verus!
