use rocket_sim::math::ode::{FixedTimeStep, OdeMethod};
use rocket_sim::rocket_mod::Rocket;
use rocket_sim::scalar::Scalar;
use rocket_sim::simdata_mod::SimulationData;
use rocket_sim::simulation_mod::Simulation;
use rocket_sim::state::model_1dof::Dof1;
use rocket_sim::state::model_3dof::Dof3;
use rocket_sim::state::State;
use rocket_sim::{IntegrationMethod, ModelType};

/// A double-precision scalar for exercising the engine on the arithmetic the
/// simulation is normally run with.
#[derive(Clone, Copy, PartialEq, Debug)]
struct F64(f64);

impl Scalar for F64 {
    // The `*_spec` trait items exist only for verification; outside Verus they
    // are ordinary (never invoked) methods, implemented here like their
    // executable twins.
    fn add_spec(self, o: Self) -> Self {
        F64(self.0 + o.0)
    }
    fn sub_spec(self, o: Self) -> Self {
        F64(self.0 - o.0)
    }
    fn mul_spec(self, o: Self) -> Self {
        F64(self.0 * o.0)
    }
    fn div_spec(self, o: Self) -> Self {
        F64(self.0 / o.0)
    }
    fn abs_spec(self) -> Self {
        F64(self.0.abs())
    }
    fn signum_spec(self) -> Self {
        F64(self.0.signum())
    }
    fn sqrt_spec(self) -> Self {
        F64(self.0.sqrt())
    }
    fn sin_spec(self) -> Self {
        F64(self.0.sin())
    }
    fn cos_spec(self) -> Self {
        F64(self.0.cos())
    }
    fn acos_spec(self) -> Self {
        F64(self.0.acos())
    }
    fn lt_spec(self, o: Self) -> bool {
        self.0 < o.0
    }
    fn is_zero_spec(self) -> bool {
        self.0 == 0.0
    }
    fn from_ratio_spec(num: i64, den: i64) -> Self {
        F64(num as f64 / den as f64)
    }
    fn zero_spec() -> Self {
        F64(0.0)
    }
    fn pi_spec() -> Self {
        F64(std::f64::consts::PI)
    }
    fn invalid_spec() -> Self {
        F64(f64::NAN)
    }
    fn zero_identity_laws(_x: Self) {}

    fn add(self, o: Self) -> Self {
        F64(self.0 + o.0)
    }
    fn sub(self, o: Self) -> Self {
        F64(self.0 - o.0)
    }
    fn mul(self, o: Self) -> Self {
        F64(self.0 * o.0)
    }
    fn div(self, o: Self) -> Self {
        F64(self.0 / o.0)
    }
    fn abs(self) -> Self {
        F64(self.0.abs())
    }
    fn signum(self) -> Self {
        F64(self.0.signum())
    }
    fn sqrt(self) -> Self {
        F64(self.0.sqrt())
    }
    fn sin(self) -> Self {
        F64(self.0.sin())
    }
    fn cos(self) -> Self {
        F64(self.0.cos())
    }
    fn acos(self) -> Self {
        F64(self.0.acos())
    }
    fn lt(self, o: Self) -> bool {
        self.0 < o.0
    }
    fn is_zero(self) -> bool {
        self.0 == 0.0
    }
    fn from_ratio(num: i64, den: i64) -> Self {
        F64(num as f64 / den as f64)
    }
    fn zero() -> Self {
        F64(0.0)
    }
    fn pi() -> Self {
        F64(std::f64::consts::PI)
    }
    fn invalid() -> Self {
        F64(f64::NAN)
    }
}

/// The test rocket shared by the concrete scenarios: 10 kg, cd 0.3, drag
/// area 0.005, lift area 0.05, yaw inertia 10, static margin 0.3, lift
/// slope 0.5.
fn test_rocket() -> Rocket<F64> {
    Rocket::new(
        F64(10.0),
        F64(0.3),
        F64(0.005),
        F64(0.05),
        F64(10.0),
        F64(0.3),
        F64(0.5),
    )
}

fn run_1dof_euler(h0: f64, v0: f64, dt: f64, maxiter: u64) -> (Simulation<F64>, SimulationData<F64>) {
    let state = State::OneDOF(Dof1::new([F64(h0), F64(v0)], test_rocket()));
    let method = OdeMethod::Euler(FixedTimeStep::new(F64(dt)));
    let mut sim = Simulation::new(state, method, 1, maxiter).unwrap();
    let mut log = SimulationData::new();
    sim.run(&mut log);
    (sim, log)
}

fn run_1dof_rk3(h0: f64, v0: f64, dt: f64, maxiter: u64) -> (Simulation<F64>, SimulationData<F64>) {
    let state = State::OneDOF(Dof1::new([F64(h0), F64(v0)], test_rocket()));
    let method = OdeMethod::RK3(FixedTimeStep::new(F64(dt)));
    let mut sim = Simulation::new(state, method, 1, maxiter).unwrap();
    let mut log = SimulationData::new();
    sim.run(&mut log);
    (sim, log)
}

fn run_3dof_euler(
    rocket: Rocket<F64>,
    u0: [f64; 6],
    dt: f64,
    maxiter: u64,
) -> (Simulation<F64>, SimulationData<F64>) {
    let u = [
        F64(u0[0]),
        F64(u0[1]),
        F64(u0[2]),
        F64(u0[3]),
        F64(u0[4]),
        F64(u0[5]),
    ];
    let state = State::ThreeDOF(Dof3::new(u, rocket));
    let method = OdeMethod::Euler(FixedTimeStep::new(F64(dt)));
    let mut sim = Simulation::new(state, method, 1, maxiter).unwrap();
    let mut log = SimulationData::new();
    sim.run(&mut log);
    (sim, log)
}

// The force formulas on concrete values, against independently computed
// numbers: drag is negative (opposing the motion), lift carries the sign of
// the angle of attack.
#[test]
fn force_formulas_give_expected_values() {
    let close = |a: f64, b: f64| (a - b).abs() <= 1e-9 * b.abs().max(1.0);
    assert!(close(rocket_sim::physics_mod::density::<F64>().0, 1.224));
    assert!(close(rocket_sim::physics_mod::gravity::<F64>().0, -9.8));
    let d = rocket_sim::physics_mod::calc_drag_force(F64(100.0), F64(0.3), F64(0.005));
    assert!(close(d.0, -9.18), "drag {d:?}");
    let d = rocket_sim::physics_mod::calc_drag_force(F64(50.0), F64(0.75), F64(0.02));
    assert!(close(d.0, -22.95), "drag {d:?}");
    // drag decelerates an ascending rocket
    assert!(d.0 < 0.0);
    let l = rocket_sim::physics_mod::calc_lift_force(F64(100.0), F64(0.5), F64(0.25), F64(0.005));
    assert!(close(l.0, 3.825), "lift {l:?}");
    let l = rocket_sim::physics_mod::calc_lift_force(F64(100.0), F64(0.5), F64(-0.25), F64(0.005));
    assert!(close(l.0, -3.825), "lift {l:?}");
}

// A 100 m/s vertical launch integrated with Euler at dt=0.1 must reach an
// apogee strictly between the ground and the drag-free ballistic ceiling
// 100^2 / (2 * 9.8).
#[test]
fn euler_1dof_apogee_in_physical_band() {
    let (sim, log) = run_1dof_euler(0.0, 100.0, 0.1, 10000);
    assert!(sim.done);
    let apogee = sim.apogee().0;
    assert!(apogee > 0.0, "apogee {apogee} should be above the ground");
    assert!(
        apogee < 100.0 * 100.0 / (2.0 * 9.8),
        "apogee {apogee} should be below the drag-free ceiling"
    );
    // one row per iteration, including the apogee iteration
    assert_eq!(log.get_len() as u64, sim.iter + 1);
}

// The same rocket in 3DOF, launched straight up with no horizontal velocity
// and no initial disturbance, must reproduce the 1DOF apogee at the same
// step size to within a few percent.
#[test]
fn three_dof_vertical_launch_matches_1dof_apogee() {
    let (sim1, _) = run_1dof_euler(0.0, 100.0, 0.01, 100000);
    let (sim3, _) = run_3dof_euler(
        test_rocket(),
        [0.0, 0.0, std::f64::consts::FRAC_PI_2, 0.0, 100.0, 0.0],
        0.01,
        100000,
    );
    assert!(sim1.done && sim3.done);
    let a1 = sim1.apogee().0;
    let a3 = sim3.apogee().0;
    let rel = (a1 - a3).abs() / a1;
    assert!(
        rel < 0.03,
        "3DOF apogee {a3} should be within a few percent of 1DOF apogee {a1} (rel {rel})"
    );
}

// With a zero lift-curve slope and no horizontal velocity nothing couples
// the vertical motion to the other degrees of freedom: the 3DOF trajectory
// reproduces the 1DOF height profile.
#[test]
fn three_dof_without_lift_matches_1dof_heights() {
    let mut rocket = test_rocket();
    rocket.cl_a = F64(0.0);
    let (sim3, log3) = run_3dof_euler(
        rocket,
        [0.0, 0.0, std::f64::consts::FRAC_PI_2, 0.0, 100.0, 0.0],
        0.01,
        100000,
    );
    let state1 = State::OneDOF(Dof1::new([F64(0.0), F64(100.0)], rocket));
    let method = OdeMethod::Euler(FixedTimeStep::new(F64(0.01)));
    let mut sim1 = Simulation::new(state1, method, 1, 100000).unwrap();
    let mut log1 = SimulationData::new();
    sim1.run(&mut log1);

    assert!(sim1.done && sim3.done);
    assert_eq!(sim1.iter, sim3.iter);
    // compare the height column of every logged row (column 1 in 1DOF rows,
    // column 2 in 3DOF rows) and the velocity likewise
    assert_eq!(log1.get_len(), log3.get_len());
    for i in 0..log1.get_len() {
        let h1 = log1.get_val(i, 1).unwrap().0;
        let h3 = log3.get_val(i, 2).unwrap().0;
        assert!(
            (h1 - h3).abs() <= 1e-9 * h1.abs().max(1.0),
            "row {i}: 1DOF height {h1} vs 3DOF height {h3}"
        );
        let v1 = log1.get_val(i, 2).unwrap().0;
        let v3 = log3.get_val(i, 5).unwrap().0;
        assert!(
            (v1 - v3).abs() <= 1e-9 * v1.abs().max(1.0),
            "row {i}: 1DOF velocity {v1} vs 3DOF velocity {v3}"
        );
    }
}

// As the step size shrinks on the same smooth field, the Runge-Kutta and
// Euler trajectories converge to each other.
#[test]
fn rk3_converges_to_euler_as_dt_shrinks() {
    let mut diffs: Vec<f64> = Vec::new();
    for dt in [0.1f64, 0.01, 0.001] {
        let steps = (1.0 / dt).round() as u64;
        // integrate to t = 1.0 with both schemes (no apogee below 1 s here)
        let (sim_e, _) = {
            let state = State::OneDOF(Dof1::new([F64(0.0), F64(100.0)], test_rocket()));
            let mut sim =
                Simulation::new(state, OdeMethod::Euler(FixedTimeStep::new(F64(dt))), 1, steps)
                    .unwrap();
            let mut log = SimulationData::new();
            sim.run(&mut log);
            (sim, log)
        };
        let (sim_r, _) = {
            let state = State::OneDOF(Dof1::new([F64(0.0), F64(100.0)], test_rocket()));
            let mut sim =
                Simulation::new(state, OdeMethod::RK3(FixedTimeStep::new(F64(dt))), 1, steps)
                    .unwrap();
            let mut log = SimulationData::new();
            sim.run(&mut log);
            (sim, log)
        };
        assert!(!sim_e.done && !sim_r.done);
        let he = sim_e.state.get_altitude().0;
        let hr = sim_r.state.get_altitude().0;
        diffs.push((he - hr).abs());
    }
    assert!(
        diffs[1] < diffs[0] && diffs[2] < diffs[1],
        "difference should shrink with dt: {diffs:?}"
    );
    assert!(diffs[2] < 0.01, "at dt=0.001 the schemes agree to {}", diffs[2]);
}

// The exit condition triggers exactly at the iteration where the velocity
// first turns negative, and the reported apogee is exactly the height
// logged at that iteration.
#[test]
fn exit_triggers_at_first_negative_velocity() {
    let (sim, log) = run_1dof_euler(0.0, 25.0, 1.0, 100);
    assert!(sim.done);
    assert_eq!(sim.iter, 3);
    assert_eq!(log.get_len(), 4);
    // every row before the exit has nonnegative velocity, the exit row a
    // negative one
    for i in 0..3 {
        assert!(log.get_val(i, 2).unwrap().0 >= 0.0);
    }
    assert!(log.get_val(3, 2).unwrap().0 < 0.0);
    // the apogee is exactly the height logged at the exit iteration
    let apogee = sim.apogee().0;
    let logged_height = log.get_val(3, 1).unwrap().0;
    assert_eq!(apogee, logged_height);
}

// Asking for the apogee before the exit condition has been reached is a
// usage error answered with the not-a-number sentinel, not a crash; the
// same holds when the iteration cap runs out first.
#[test]
fn apogee_before_done_is_nan_sentinel() {
    let state = State::OneDOF(Dof1::new([F64(0.0), F64(100.0)], test_rocket()));
    let method = OdeMethod::Euler(FixedTimeStep::new(F64(0.1)));
    let mut sim = Simulation::new(state, method, 1, 5).unwrap();
    assert!(sim.apogee().0.is_nan());
    let mut log = SimulationData::new();
    sim.run(&mut log);
    // five iterations are nowhere near apogee for a 100 m/s launch
    assert!(!sim.done);
    assert!(sim.apogee().0.is_nan());
    assert_eq!(log.get_len(), 5);
}

// A 3DOF model at rest has no aerodynamic force: the derivative is free
// fall plus the first-order terms.
#[test]
fn three_dof_zero_velocity_derivative_is_free_fall() {
    let mut dof = Dof3::new(
        [F64(1.0), F64(2.0), F64(0.3), F64(0.0), F64(0.0), F64(0.7)],
        test_rocket(),
    );
    let d = dof.get_derivs_3dof();
    assert_eq!(d.data[0].0, 0.0);
    assert_eq!(d.data[1].0, 0.0);
    assert_eq!(d.data[2].0, 0.7);
    assert_eq!(d.data[3].0, 0.0);
    assert_eq!(d.data[4].0, -9.8);
    assert_eq!(d.data[5].0, 0.0);
}

// The 3DOF derivative of the straight-up launch state, checked against
// values computed independently from the force formulas.
#[test]
fn three_dof_derivative_of_vertical_launch_state() {
    let mut dof = Dof3::new(
        [
            F64(0.0),
            F64(0.0),
            F64(std::f64::consts::FRAC_PI_2),
            F64(0.0),
            F64(100.0),
            F64(0.0),
        ],
        test_rocket(),
    );
    let d = dof.get_derivs_3dof();
    let rel = |a: f64, b: f64| (a - b).abs() / b.abs().max(1.0);
    assert_eq!(d.data[0].0, 0.0);
    assert_eq!(d.data[1].0, 100.0);
    assert_eq!(d.data[2].0, 0.0);
    assert!(rel(d.data[3].0, -2.403318379996192) < 1e-9);
    assert!(rel(d.data[4].0, -10.718) < 1e-9);
    assert!(rel(d.data[5].0, -0.2754) < 1e-9);
}

// One Euler step and one Runge-Kutta step from the same state, against
// independently computed values.
#[test]
fn single_steps_match_hand_computed_values() {
    let state = State::OneDOF(Dof1::new([F64(0.0), F64(100.0)], test_rocket()));
    let method = OdeMethod::Euler(FixedTimeStep::new(F64(0.1)));
    let mut s = state;
    method.timestep(&mut s).unwrap();
    let (h, v) = match s {
        State::OneDOF(d) => (d.u.data[0].0, d.u.data[1].0),
        _ => unreachable!(),
    };
    assert!((h - 10.0).abs() < 1e-12);
    assert!((v - 98.9282).abs() < 1e-9);
    assert!((s.get_time().0 - 0.1).abs() < 1e-12);

    let mut s = state;
    let method = OdeMethod::RK3(FixedTimeStep::new(F64(0.1)));
    method.timestep(&mut s).unwrap();
    let (h, v) = match s {
        State::OneDOF(d) => (d.u.data[0].0, d.u.data[1].0),
        _ => unreachable!(),
    };
    assert!((h - 9.946442621320449).abs() < 1e-9);
    assert!((v - 98.92917980148971).abs() < 1e-9);
}

// Round trip through the log: append a row with a timestamp, then read the
// timestamp back through column 0 and each payload element through its
// 1-based column, all exactly.
#[test]
fn log_round_trip_returns_exact_values() {
    let mut log: SimulationData<F64> = SimulationData::new();
    log.add_row(vec![F64(1.5), F64(-2.25)], F64(0.125));
    let row = vec![F64(42.0), F64(-7.125), F64(0.0078125)];
    let t = F64(3.1415926535);
    log.add_row(row.clone(), t);
    let idx = log.get_len() - 1;
    assert_eq!(log.get_val(idx, 0).unwrap(), t);
    for (c, expected) in row.iter().enumerate() {
        assert_eq!(log.get_val(idx, c + 1).unwrap(), *expected);
    }
    // the earlier row is untouched
    assert_eq!(log.get_val(0, 0).unwrap(), F64(0.125));
    assert_eq!(log.get_val(0, 2).unwrap(), F64(-2.25));
    // out-of-range rows and columns are explicit lookup failures
    assert!(log.get_val(2, 0).is_none());
    assert!(log.get_val(1, 4).is_none());
}

// The all-in-one entry point: a flight simulated through `simulate_flight`
// produces the same log as assembling the pieces by hand.
#[test]
fn simulate_flight_logs_the_same_trajectory() {
    let rocket = test_rocket();
    let log = rocket
        .simulate_flight(
            F64(0.0),
            F64(100.0),
            ModelType::OneDOF,
            IntegrationMethod::Euler,
            None,
        )
        .unwrap();
    // the default step is 0.01
    let (sim, manual_log) = run_1dof_euler(0.0, 100.0, 0.01, 100000);
    assert!(sim.done);
    assert_eq!(log.get_len(), manual_log.get_len());
    for i in (0..log.get_len()).step_by(97) {
        for c in 0..4 {
            assert_eq!(log.get_val(i, c).unwrap(), manual_log.get_val(i, c).unwrap());
        }
    }
}
