//! The simulation driver: iterates an ODE method over a state-space model,
//! logging one row per iteration, until apogee is detected or the iteration
//! cap is exhausted.

use vstd::prelude::*;

use crate::math::ode::{iterate_spec, AdaptiveTimeStep, FixedTimeStep, OdeMethod, TimeStepOptions};
use crate::rocket_mod::Rocket;
use crate::scalar::Scalar;
use crate::simdata_mod::SimulationData;
use crate::state::model_1dof::Dof1;
use crate::state::model_3dof::Dof3;
use crate::state::{ModelState, State};
use crate::{ConfigError, IntegrationMethod, ModelType};

verus! {

/// The driver's exit condition: apogee is reached once the vertical
/// velocity has become negative.
pub open spec fn apogee_condition<S: Scalar>(m: ModelState<S>) -> bool {
    m.vertical_velocity().lt_spec(S::zero_spec())
}

/// Number of steps from `m` until the exit condition first holds, capped at
/// `bound`: `0` if it already holds, `bound` if it never does within the
/// cap.
pub open spec fn first_hit<S: Scalar>(m: ModelState<S>, method: OdeMethod<S>, bound: nat) -> nat
    decreases bound,
{
    if bound == 0 {
        0
    } else if apogee_condition(m) {
        0
    } else {
        1 + first_hit(method.step_spec(m), method, (bound - 1) as nat)
    }
}

proof fn lemma_iterate_shift<S: Scalar>(m: ModelState<S>, method: OdeMethod<S>, n: nat)
    ensures
        iterate_spec(m, method, n + 1) == iterate_spec(method.step_spec(m), method, n),
    decreases n,
{
    if n == 0 {
        assert(iterate_spec(m, method, 1) == method.step_spec(iterate_spec(m, method, 0)));
    } else {
        lemma_iterate_shift(m, method, (n - 1) as nat);
        assert(iterate_spec(m, method, n + 1) == method.step_spec(iterate_spec(m, method, n)));
        assert(iterate_spec(method.step_spec(m), method, n) == method.step_spec(
            iterate_spec(method.step_spec(m), method, (n - 1) as nat),
        ));
    }
}

/// The exit condition triggers exactly at the first iteration whose state
/// satisfies it: no state strictly before `first_hit` satisfies it, and the
/// state at `first_hit` does whenever the cap was not exhausted first.
pub proof fn lemma_first_hit<S: Scalar>(m: ModelState<S>, method: OdeMethod<S>, bound: nat)
    ensures
        first_hit(m, method, bound) <= bound,
        forall|j: nat|
            j < first_hit(m, method, bound) ==> !apogee_condition(
                #[trigger] iterate_spec(m, method, j),
            ),
        first_hit(m, method, bound) < bound ==> apogee_condition(
            iterate_spec(m, method, first_hit(m, method, bound)),
        ),
    decreases bound,
{
    if bound > 0 && !apogee_condition(m) {
        let m1 = method.step_spec(m);
        lemma_first_hit(m1, method, (bound - 1) as nat);
        let k = first_hit(m, method, bound);
        assert(k == 1 + first_hit(m1, method, (bound - 1) as nat));
        assert forall|j: nat| j < k implies !apogee_condition(
            #[trigger] iterate_spec(m, method, j),
        ) by {
            if j > 0 {
                lemma_iterate_shift(m, method, (j - 1) as nat);
                assert(iterate_spec(m, method, j) == iterate_spec(m1, method, (j - 1) as nat));
            }
        }
        if k < bound {
            lemma_iterate_shift(m, method, (k - 1) as nat);
        }
    }
}

/// If the exit condition first holds at step `i` (within the cap), then
/// `first_hit` is exactly `i`.
pub proof fn lemma_first_hit_exact<S: Scalar>(
    m: ModelState<S>,
    method: OdeMethod<S>,
    bound: nat,
    i: nat,
)
    requires
        i < bound,
        apogee_condition(iterate_spec(m, method, i)),
        forall|j: nat| j < i ==> !apogee_condition(#[trigger] iterate_spec(m, method, j)),
    ensures
        first_hit(m, method, bound) == i,
{
    lemma_first_hit(m, method, bound);
    let k = first_hit(m, method, bound);
    if k < i {
        assert(apogee_condition(iterate_spec(m, method, k)));
    }
    if i < k {
        assert(!apogee_condition(iterate_spec(m, method, i)));
    }
}

/// If the exit condition holds at no step below the cap, `first_hit` is the
/// cap itself.
pub proof fn lemma_first_hit_none<S: Scalar>(m: ModelState<S>, method: OdeMethod<S>, bound: nat)
    requires
        forall|j: nat| j < bound ==> !apogee_condition(#[trigger] iterate_spec(m, method, j)),
    ensures
        first_hit(m, method, bound) == bound,
{
    lemma_first_hit(m, method, bound);
}

/// Coordinates the execution of one simulation: a state-space model, an
/// integration method, an exit condition and an iteration cap.
pub struct Simulation<S> {
    pub state: State<S>,
    /// Number of state variables of the model.
    pub nvar: usize,
    pub ode: OdeMethod<S>,
    /// Exit-condition selector; the only known condition is `1`, apogee.
    pub exit_condition: i32,
    /// The iteration index at which the exit condition triggered.
    pub iter: u64,
    /// Iteration cap.
    pub maxiter: u64,
    /// Whether the exit condition has triggered during `run`.
    pub done: bool,
}

impl<S: Scalar> Simulation<S> {
    /// A runnable simulation: an implemented method, a known exit
    /// condition, and a well-formed model.
    pub open spec fn wf(self) -> bool {
        self.ode.is_fixed_step() && self.exit_condition == 1 && self.state.inv()
    }

    /// Validate the configuration and assemble a simulation.  An
    /// unimplemented integration method or an unknown exit condition is
    /// rejected here, at construction, never silently substituted.
    pub fn new(state: State<S>, ode: OdeMethod<S>, exit_condition: i32, maxiter: u64) -> (r:
        Result<Simulation<S>, ConfigError>)
        requires
            state.inv(),
        ensures
            r is Ok <==> ode.is_fixed_step() && exit_condition == 1,
            !ode.is_fixed_step() ==> r == Result::<Simulation<S>, ConfigError>::Err(
                ConfigError::UnimplementedMethod,
            ),
            ode.is_fixed_step() && exit_condition != 1 ==> r == Result::<
                Simulation<S>,
                ConfigError,
            >::Err(ConfigError::InvalidExitCondition),
            r matches Ok(s) ==> s.wf() && s.state == state && s.ode == ode && s.exit_condition
                == exit_condition && s.maxiter == maxiter && s.iter == 0 && !s.done && s.nvar
                == state@.ndim(),
    {
        let fixed = match &ode {
            OdeMethod::Euler(_) => true,
            OdeMethod::RK3(_) => true,
            OdeMethod::RK45(_) => false,
        };
        if !fixed {
            return Err(ConfigError::UnimplementedMethod);
        }
        if exit_condition != 1 {
            return Err(ConfigError::InvalidExitCondition);
        }
        let nvar = state.get_ndim();
        Ok(Simulation { state, nvar, ode, exit_condition, iter: 0, maxiter, done: false })
    }

    /// Run the simulation.
    ///
    /// For each iteration `i` from `0` below `maxiter`: the current state's
    /// log row and time are appended, then the exit condition is evaluated
    /// on the current (pre-step) state — triggering records `iter = i` and
    /// stops — and otherwise one integrator step advances the model.
    ///
    /// Writing `k` for the first iteration at which the vertical velocity
    /// is negative (capped at `maxiter`): exactly the states of iterations
    /// `0` through `min(k, maxiter - 1)` are logged in order, the final
    /// state is the `k`-th (or `maxiter`-th) iterate, and `done` records
    /// whether the exit condition was reached.
    pub fn run(&mut self, log: &mut SimulationData<S>)
        requires
            old(self).wf(),
            !old(self).done,
            old(log).inv(),
            old(log).times_view().len() + old(self).maxiter <= u64::MAX,
        ensures
            final(self).wf(),
            final(log).inv(),
            final(self).ode == old(self).ode,
            final(self).exit_condition == old(self).exit_condition,
            final(self).maxiter == old(self).maxiter,
            final(self).nvar == old(self).nvar,
            ({
                let m0 = old(self).state@;
                let method = old(self).ode;
                let cap = old(self).maxiter as nat;
                let k = first_hit(m0, method, cap);
                let logged: nat = if k < cap {
                    (k + 1) as nat
                } else {
                    cap
                };
                &&& final(self).done <==> k < cap
                &&& final(self).state@ == iterate_spec(m0, method, k)
                &&& (k < cap ==> final(self).iter as nat == k && apogee_condition(
                    iterate_spec(m0, method, k),
                ))
                &&& (k == cap ==> final(self).iter == old(self).iter)
                &&& forall|j: nat|
                    j < k ==> !apogee_condition(#[trigger] iterate_spec(m0, method, j))
                &&& final(log).times_view() == old(log).times_view() + Seq::new(
                    logged,
                    |j: int| iterate_spec(m0, method, j as nat).time,
                )
                &&& final(log).rows_view() == old(log).rows_view() + Seq::new(
                    logged,
                    |j: int| iterate_spec(m0, method, j as nat).logrow(),
                )
            }),
    {
        let ghost m0 = self.state@;
        let ghost method = self.ode;
        let ghost cap = self.maxiter as nat;
        let ghost times0 = log.times_view();
        let ghost rows0 = log.rows_view();
        let ghost iter0: u64 = self.iter;
        let ghost nvar0: usize = self.nvar;

        let maxiter = self.maxiter;
        let mut i: u64 = 0;
        let mut hit: bool = false;

        while i < maxiter && !hit
            invariant
                self.wf(),
                log.inv(),
                !self.done,
                i <= maxiter,
                maxiter == self.maxiter,
                method == self.ode,
                cap == maxiter as nat,
                iter0 == self.iter,
                nvar0 == self.nvar,
                times0.len() + cap <= u64::MAX,
                self.state@ == iterate_spec(m0, method, i as nat),
                forall|j: nat|
                    j < i as nat ==> !apogee_condition(#[trigger] iterate_spec(m0, method, j)),
                hit ==> i < maxiter && apogee_condition(iterate_spec(m0, method, i as nat)),
                ({
                    let logged: nat = if hit {
                        (i + 1) as nat
                    } else {
                        i as nat
                    };
                    &&& log.times_view() == times0 + Seq::new(
                        logged,
                        |j: int| iterate_spec(m0, method, j as nat).time,
                    )
                    &&& log.rows_view() == rows0 + Seq::new(
                        logged,
                        |j: int| iterate_spec(m0, method, j as nat).logrow(),
                    )
                }),
            decreases maxiter - i + (if hit {
                0int
            } else {
                1int
            }),
        {
            let row = self.state.get_logrow();
            let t = self.state.get_time();
            log.add_row(row, t);
            proof {
                assert(log.times_view() =~= times0 + Seq::new(
                    (i + 1) as nat,
                    |j: int| iterate_spec(m0, method, j as nat).time,
                ));
                assert(log.rows_view() =~= rows0 + Seq::new(
                    (i + 1) as nat,
                    |j: int| iterate_spec(m0, method, j as nat).logrow(),
                ));
            }
            if self.is_done() {
                hit = true;
            } else {
                match self.ode.timestep(&mut self.state) {
                    Ok(_) => {},
                    Err(_) => vstd::pervasive::unreached(),
                }
                proof {
                    lemma_iterate_shift_front(m0, method, i as nat);
                }
                i = i + 1;
            }
        }

        if hit {
            self.iter = i;
            self.done = true;
            proof {
                lemma_first_hit_exact(m0, method, cap, i as nat);
            }
        } else {
            proof {
                lemma_first_hit_none(m0, method, cap);
            }
        }
    }

    /// The altitude that [`Simulation::apogee`] reports for a state is
    /// exactly the altitude column of the row that state logs: column `0`
    /// of a 1DOF row, column `1` of a 3DOF row.  Since `run` logs the state
    /// of the iteration at which the exit condition triggered and leaves
    /// the model there, the reported apogee equals the height logged at
    /// that iteration.
    pub proof fn lemma_apogee_matches_logged_height(m: ModelState<S>)
        requires
            m.wf(),
        ensures
            !m.dof3 ==> m.logrow()[0] == m.altitude(),
            m.dof3 ==> m.logrow()[1] == m.altitude(),
    {
    }

    /// The apogee altitude, meaningful once the exit condition has been
    /// reached during `run`; before that, asking is a usage error answered
    /// with the sentinel value rather than a crash.
    pub fn apogee(&self) -> (r: S)
        ensures
            self.done ==> r == self.state@.altitude(),
            !self.done ==> r == S::invalid_spec(),
    {
        if !self.done {
            S::invalid()
        } else {
            self.state.get_altitude()
        }
    }

    /// Evaluate the configured exit condition on the current state.
    fn is_done(&self) -> (r: bool)
        requires
            self.wf(),
        ensures
            r == apogee_condition(self.state@),
    {
        if self.exit_condition == 1 {
            self.condition_one()
        } else {
            vstd::pervasive::unreached()
        }
    }

    /// Exit condition one: stop once apogee is reached, i.e. the vertical
    /// velocity has turned negative.
    fn condition_one(&self) -> (r: bool)
        ensures
            r == apogee_condition(self.state@),
    {
        self.state.get_vertical_velocity().lt(S::zero())
    }
}

proof fn lemma_iterate_shift_front<S: Scalar>(m: ModelState<S>, method: OdeMethod<S>, n: nat)
    ensures
        iterate_spec(m, method, n + 1) == method.step_spec(iterate_spec(m, method, n)),
{
}

/// Iteration cap used by [`Rocket::simulate_flight`].
pub const MAXITER: u64 = 100000;

/// The integration method `simulate_flight` assembles from a scheme
/// selector and an optional step configuration, for the accepted pairings.
pub open spec fn flight_method_spec<S: Scalar>(
    integration_method: IntegrationMethod,
    timestep_config: Option<TimeStepOptions<S>>,
) -> OdeMethod<S> {
    let dt_default = FixedTimeStep { dt: S::from_ratio_spec(1, 100) };
    match (integration_method, timestep_config) {
        (IntegrationMethod::Euler, Some(TimeStepOptions::Fixed(f))) => OdeMethod::Euler(f),
        (IntegrationMethod::Euler, _) => OdeMethod::Euler(dt_default),
        (IntegrationMethod::RK3, Some(TimeStepOptions::Fixed(f))) => OdeMethod::RK3(f),
        (IntegrationMethod::RK3, _) => OdeMethod::RK3(dt_default),
        (IntegrationMethod::RK45, _) => OdeMethod::Euler(dt_default),
    }
}

/// The initial model `simulate_flight` builds: the 1DOF state starts at
/// `(height, velocity)`; the 3DOF state starts at the same height and
/// vertical velocity, with no horizontal or angular motion and the body
/// angle at a quarter turn.
pub open spec fn flight_initial_spec<S: Scalar>(
    rocket: Rocket<S>,
    model_type: ModelType,
    initial_height: S,
    initial_velocity: S,
) -> ModelState<S> {
    match model_type {
        ModelType::OneDOF => ModelState {
            u: seq![initial_height, initial_velocity],
            time: S::zero_spec(),
            rocket,
            dof3: false,
        },
        ModelType::ThreeDOF => ModelState {
            u: seq![
                S::zero_spec(),
                initial_height,
                S::pi_spec().div_spec(S::from_ratio_spec(2, 1)),
                S::zero_spec(),
                initial_velocity,
                S::zero_spec(),
            ],
            time: S::zero_spec(),
            rocket,
            dof3: true,
        },
    }
}

impl<S: Scalar> Rocket<S> {
    /// Simulate a flight of this rocket from the given initial height and
    /// vertical velocity, with the chosen model and integration scheme, and
    /// return the trajectory log of the run.
    ///
    /// A fixed-step scheme paired with an adaptive configuration (or the
    /// other way around) is a configuration error; selecting the
    /// unimplemented adaptive scheme is one as well.  On success the log
    /// holds exactly one row per simulated iteration, up to and including
    /// the iteration at which apogee was detected, or all `MAXITER`
    /// iterations if it never was.
    pub fn simulate_flight(
        &self,
        initial_height: S,
        initial_velocity: S,
        model_type: ModelType,
        integration_method: IntegrationMethod,
        timestep_config: Option<TimeStepOptions<S>>,
    ) -> (r: Result<SimulationData<S>, ConfigError>)
        ensures
            r is Ok <==> ((integration_method == IntegrationMethod::Euler || integration_method
                == IntegrationMethod::RK3) && !(timestep_config matches Some(
                TimeStepOptions::Adaptive(_),
            ))),
            ((integration_method == IntegrationMethod::Euler || integration_method
                == IntegrationMethod::RK3) && (timestep_config matches Some(
                TimeStepOptions::Adaptive(_),
            ))) ==> r == Result::<SimulationData<S>, ConfigError>::Err(
                ConfigError::MismatchedTimeStepConfig,
            ),
            (integration_method == IntegrationMethod::RK45 && (timestep_config matches Some(
                TimeStepOptions::Fixed(_),
            ))) ==> r == Result::<SimulationData<S>, ConfigError>::Err(
                ConfigError::MismatchedTimeStepConfig,
            ),
            (integration_method == IntegrationMethod::RK45 && !(timestep_config matches Some(
                TimeStepOptions::Fixed(_),
            ))) ==> r == Result::<SimulationData<S>, ConfigError>::Err(
                ConfigError::UnimplementedMethod,
            ),
            r matches Ok(log) ==> log.inv() && ({
                let method = flight_method_spec(integration_method, timestep_config);
                let m0 = flight_initial_spec(
                    *self,
                    model_type,
                    initial_height,
                    initial_velocity,
                );
                let k = first_hit(m0, method, MAXITER as nat);
                let logged: nat = if k < MAXITER as nat {
                    (k + 1) as nat
                } else {
                    MAXITER as nat
                };
                &&& log.times_view() == Seq::new(
                    logged,
                    |j: int| iterate_spec(m0, method, j as nat).time,
                )
                &&& log.rows_view() == Seq::new(
                    logged,
                    |j: int| iterate_spec(m0, method, j as nat).logrow(),
                )
            }),
    {
        let ode_method: OdeMethod<S> = match (integration_method, timestep_config) {
            (IntegrationMethod::Euler, Some(TimeStepOptions::Fixed(f))) => OdeMethod::Euler(f),
            (IntegrationMethod::Euler, None) => OdeMethod::Euler(
                FixedTimeStep::new(S::from_ratio(1, 100)),
            ),
            (IntegrationMethod::Euler, Some(TimeStepOptions::Adaptive(_))) => {
                return Err(ConfigError::MismatchedTimeStepConfig);
            },
            (IntegrationMethod::RK3, Some(TimeStepOptions::Fixed(f))) => OdeMethod::RK3(f),
            (IntegrationMethod::RK3, None) => OdeMethod::RK3(
                FixedTimeStep::new(S::from_ratio(1, 100)),
            ),
            (IntegrationMethod::RK3, Some(TimeStepOptions::Adaptive(_))) => {
                return Err(ConfigError::MismatchedTimeStepConfig);
            },
            (IntegrationMethod::RK45, Some(TimeStepOptions::Adaptive(a))) => OdeMethod::RK45(a),
            (IntegrationMethod::RK45, None) => {
                let dt = S::from_ratio(1, 100);
                OdeMethod::RK45(AdaptiveTimeStep::new(dt, dt, dt, S::zero(), S::zero()))
            },
            (IntegrationMethod::RK45, Some(TimeStepOptions::Fixed(_))) => {
                return Err(ConfigError::MismatchedTimeStepConfig);
            },
        };

        let state: State<S> = match model_type {
            ModelType::OneDOF => State::OneDOF(
                Dof1::new([initial_height, initial_velocity], *self),
            ),
            ModelType::ThreeDOF => State::ThreeDOF(
                Dof3::new(
                    [
                        S::zero(),
                        initial_height,
                        S::pi().div(S::from_ratio(2, 1)),
                        S::zero(),
                        initial_velocity,
                        S::zero(),
                    ],
                    *self,
                ),
            ),
        };
        proof {
            assert(state@.u =~= flight_initial_spec(
                *self,
                model_type,
                initial_height,
                initial_velocity,
            ).u);
        }

        let mut simulation = match Simulation::new(state, ode_method, 1, MAXITER) {
            Ok(s) => s,
            Err(e) => {
                return Err(e);
            },
        };
        let mut log = SimulationData::new();
        simulation.run(&mut log);
        proof {
            let m0 = flight_initial_spec(*self, model_type, initial_height, initial_velocity);
            let method = flight_method_spec(integration_method, timestep_config);
            let k = first_hit(m0, method, MAXITER as nat);
            let logged: nat = if k < MAXITER as nat {
                (k + 1) as nat
            } else {
                MAXITER as nat
            };
            assert(log.times_view() =~= Seq::new(
                logged,
                |j: int| iterate_spec(m0, method, j as nat).time,
            ));
            assert(log.rows_view() =~= Seq::new(
                logged,
                |j: int| iterate_spec(m0, method, j as nat).logrow(),
            ));
        }
        Ok(log)
    }
}

} // verus!
