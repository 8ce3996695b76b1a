//! Numeric building blocks: the fixed-dimension vector primitive and the ODE
//! integration schemes.

pub mod ode;
pub mod vec_ops;
