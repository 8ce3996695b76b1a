//! Rocket flight trajectory simulation.
//!
//! The library integrates the ordinary differential equations of a rocket's
//! rigid-body motion under gravity, drag and lift.  Two motion models are
//! provided (vertical-only 1DOF and planar 3DOF), together with two
//! fixed-step integration schemes (explicit Euler and 3-stage Runge-Kutta),
//! a simulation driver with an apogee exit condition, and an append-only
//! trajectory log.
//!
//! Every numeric computation is generic over a [`scalar::Scalar`], so the
//! engine can run on any arithmetic the caller supplies; the crate ships
//! [`fixed::Fixed`], an exact fixed-point scalar.

use vstd::prelude::*;

pub mod fixed;
pub mod math;
pub mod physics_mod;
pub mod rocket_mod;
pub mod scalar;
pub mod simdata_mod;
pub mod simulation_mod;
pub mod state;

verus! {

/// Selects which state-space model a simulation integrates.
#[derive(Clone, Copy, PartialEq, Eq, Structural, Debug)]
pub enum ModelType {
    OneDOF,
    ThreeDOF,
}

/// Selects which integration scheme advances the model.
#[derive(Clone, Copy, PartialEq, Eq, Structural, Debug)]
pub enum IntegrationMethod {
    Euler,
    RK3,
    RK45,
}

/// Configuration errors, reported at construction or method selection and
/// never silently substituted with a default.
#[derive(Clone, Copy, PartialEq, Eq, Structural, Debug)]
pub enum ConfigError {
    /// A fixed-step scheme was paired with an adaptive configuration or the
    /// other way around.
    MismatchedTimeStepConfig,
    /// The adaptive scheme is declared but intentionally not implemented.
    UnimplementedMethod,
    /// The simulation exit-condition selector is not a known one.
    InvalidExitCondition,
}

} // verus!
