//! Pure physics: gravitational acceleration and the aerodynamic force
//! formulas, each with a spec function giving the exact scalar expression.

use vstd::prelude::*;

use crate::scalar::Scalar;

verus! {

/// Sea-level air density, `1.224 kg/m^3`, in the scalar's own rounding.
pub open spec fn density_spec<S: Scalar>() -> S {
    S::from_ratio_spec(1224, 1000)
}

/// Gravitational acceleration, `-9.8 m/s^2` (negative: downward).
pub open spec fn gravity_spec<S: Scalar>() -> S {
    S::from_ratio_spec(-98i64, 10)
}

/// `-0.5 * rho * v^2 * cd * area`, multiplied left to right exactly as the
/// executable code does.  The leading negative sign encodes the convention
/// that drag opposes the motion.
pub open spec fn drag_force_spec<S: Scalar>(velocity: S, cd: S, area: S) -> S {
    S::from_ratio_spec(-1i64, 2).mul_spec(density_spec::<S>()).mul_spec(
        velocity.mul_spec(velocity),
    ).mul_spec(cd).mul_spec(area)
}

/// `0.5 * rho * v^2 * cl_a * alpha * area`, multiplied left to right exactly
/// as the executable code does.  `alpha` enters signed, so the lift magnitude
/// carries the sign of the angle of attack.
pub open spec fn lift_force_spec<S: Scalar>(velocity: S, cl_a: S, alpha: S, area: S) -> S {
    S::from_ratio_spec(1, 2).mul_spec(density_spec::<S>()).mul_spec(
        velocity.mul_spec(velocity),
    ).mul_spec(cl_a).mul_spec(alpha).mul_spec(area)
}

/// Sea-level air density constant.
pub fn density<S: Scalar>() -> (r: S)
    ensures
        r == density_spec::<S>(),
{
    S::from_ratio(1224, 1000)
}

/// Gravitational acceleration constant.
pub fn gravity<S: Scalar>() -> (r: S)
    ensures
        r == gravity_spec::<S>(),
{
    S::from_ratio(-98, 10)
}

/// Aerodynamic drag force along the motion axis; negative for positive
/// velocity, so an ascending rocket is decelerated.
pub fn calc_drag_force<S: Scalar>(velocity: S, cd: S, area: S) -> (r: S)
    ensures
        r == drag_force_spec(velocity, cd, area),
{
    let rho = density::<S>();
    S::from_ratio(-1, 2).mul(rho).mul(velocity.mul(velocity)).mul(cd).mul(area)
}

/// Aerodynamic lift force for a signed angle of attack `alpha`.
pub fn calc_lift_force<S: Scalar>(velocity: S, cl_a: S, alpha: S, area: S) -> (r: S)
    ensures
        r == lift_force_spec(velocity, cl_a, alpha, area),
{
    let rho = density::<S>();
    S::from_ratio(1, 2).mul(rho).mul(velocity.mul(velocity)).mul(cl_a).mul(alpha).mul(area)
}

} // verus!
