use rocket_sim::fixed::Fixed;
use rocket_sim::math::ode::{AdaptiveTimeStep, FixedTimeStep, OdeMethod, TimeStepOptions};
use rocket_sim::rocket_mod::Rocket;
use rocket_sim::scalar::Scalar;
use rocket_sim::simulation_mod::Simulation;
use rocket_sim::state::model_1dof::Dof1;
use rocket_sim::state::State;
use rocket_sim::{ConfigError, IntegrationMethod, ModelType};

fn fixed_rocket() -> Rocket<Fixed> {
    Rocket::new(
        Fixed::from_ratio(10, 1),
        Fixed::from_ratio(3, 10),
        Fixed::from_ratio(5, 1000),
        Fixed::from_ratio(5, 100),
        Fixed::from_ratio(10, 1),
        Fixed::from_ratio(3, 10),
        Fixed::from_ratio(1, 2),
    )
}

fn fixed_state() -> State<Fixed> {
    State::OneDOF(Dof1::new(
        [Fixed::zero(), Fixed::from_ratio(100, 1)],
        fixed_rocket(),
    ))
}

fn adaptive() -> AdaptiveTimeStep<Fixed> {
    let dt = Fixed::from_ratio(1, 100);
    AdaptiveTimeStep::new(dt, dt, dt, Fixed::zero(), Fixed::zero())
}

#[test]
fn selecting_rk45_is_rejected_at_construction() {
    let r = Simulation::new(fixed_state(), OdeMethod::RK45(adaptive()), 1, 100);
    assert_eq!(r.err().unwrap(), ConfigError::UnimplementedMethod);
}

#[test]
fn unknown_exit_condition_is_rejected_at_construction() {
    let method = OdeMethod::Euler(FixedTimeStep::new(Fixed::from_ratio(1, 10)));
    let r = Simulation::new(fixed_state(), method, 2, 100);
    assert_eq!(r.err().unwrap(), ConfigError::InvalidExitCondition);
}

#[test]
fn rk45_timestep_fails_and_leaves_state_untouched() {
    let method: OdeMethod<Fixed> = OdeMethod::RK45(adaptive());
    let mut state = fixed_state();
    let r = method.timestep(&mut state);
    assert_eq!(r.err().unwrap(), ConfigError::UnimplementedMethod);
    match state {
        State::OneDOF(d) => {
            assert_eq!(d.u.data[0], Fixed::zero());
            assert_eq!(d.u.data[1], Fixed::from_ratio(100, 1));
            assert_eq!(d.time, Fixed::zero());
            assert!(!d.is_current);
        }
        _ => unreachable!(),
    }
}

#[test]
fn mismatched_method_and_timestep_config_is_an_error() {
    let rocket = fixed_rocket();
    let h = Fixed::zero();
    let v = Fixed::from_ratio(100, 1);
    let adaptive_cfg = Some(TimeStepOptions::Adaptive(adaptive()));
    let fixed_cfg = Some(TimeStepOptions::Fixed(FixedTimeStep::new(
        Fixed::from_ratio(1, 10),
    )));

    let r = rocket.simulate_flight(h, v, ModelType::OneDOF, IntegrationMethod::Euler, adaptive_cfg);
    assert_eq!(r.err().unwrap(), ConfigError::MismatchedTimeStepConfig);

    let r = rocket.simulate_flight(h, v, ModelType::OneDOF, IntegrationMethod::RK3, adaptive_cfg);
    assert_eq!(r.err().unwrap(), ConfigError::MismatchedTimeStepConfig);

    let r = rocket.simulate_flight(h, v, ModelType::OneDOF, IntegrationMethod::RK45, fixed_cfg);
    assert_eq!(r.err().unwrap(), ConfigError::MismatchedTimeStepConfig);
}

#[test]
fn rk45_through_simulate_flight_is_unimplemented() {
    let rocket = fixed_rocket();
    let h = Fixed::zero();
    let v = Fixed::from_ratio(100, 1);

    let r = rocket.simulate_flight(h, v, ModelType::OneDOF, IntegrationMethod::RK45, None);
    assert_eq!(r.err().unwrap(), ConfigError::UnimplementedMethod);

    let r = rocket.simulate_flight(
        h,
        v,
        ModelType::OneDOF,
        IntegrationMethod::RK45,
        Some(TimeStepOptions::Adaptive(adaptive())),
    );
    assert_eq!(r.err().unwrap(), ConfigError::UnimplementedMethod);
}

#[test]
fn simulate_flight_runs_in_fixed_point_too() {
    let rocket = fixed_rocket();
    let log = rocket
        .simulate_flight(
            Fixed::zero(),
            Fixed::from_ratio(100, 1),
            ModelType::OneDOF,
            IntegrationMethod::Euler,
            Some(TimeStepOptions::Fixed(FixedTimeStep::new(Fixed::from_ratio(1, 10)))),
        )
        .unwrap();
    // apogee is reached well before the iteration cap, and the launch row
    // is logged as given
    let n = log.get_len();
    assert!(n > 10 && n < 100000, "logged {n} rows");
    assert_eq!(log.get_val(0, 1).unwrap(), Fixed::zero());
    assert_eq!(log.get_val(0, 2).unwrap(), Fixed::from_ratio(100, 1));
    // the last logged velocity is the first negative one
    assert!(log.get_val(n - 1, 2).unwrap().lt(Fixed::zero()));
    assert!(!log.get_val(n - 2, 2).unwrap().lt(Fixed::zero()));
}
