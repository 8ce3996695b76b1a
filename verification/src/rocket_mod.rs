//! The immutable bag of physical constants describing one rocket.

use vstd::prelude::*;

verus! {

/// Physical parameters of the simulated rocket.  Copied by value into each
/// state-space model at construction and never mutated during a run.
#[derive(Clone, Copy)]
pub struct Rocket<S> {
    /// Mass in kilograms.
    pub mass: S,
    /// Drag coefficient.
    pub cd: S,
    /// Reference area for drag, in square meters.
    pub area_drag: S,
    /// Reference area for lift, in square meters.
    pub area_lift: S,
    /// Yaw-axis moment of inertia.
    pub inertia_z: S,
    /// Center-of-pressure to center-of-mass offset along the body axis.
    pub stab_margin_dimensional: S,
    /// Lift-curve slope.
    pub cl_a: S,
}

impl<S: Copy> Rocket<S> {
    pub fn new(
        mass: S,
        cd: S,
        area_drag: S,
        area_lift: S,
        inertia_z: S,
        stab_margin_dimensional: S,
        cl_a: S,
    ) -> (r: Self)
        ensures
            r == (Rocket { mass, cd, area_drag, area_lift, inertia_z, stab_margin_dimensional, cl_a }),
    {
        Self { mass, cd, area_drag, area_lift, inertia_z, stab_margin_dimensional, cl_a }
    }
}

} // verus!
