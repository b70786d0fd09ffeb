//! Explicit control-volume energy-balance engine for one-dimensional
//! thermal-hydraulic networks.
//!
//! A network is a collection of pipe-like control volumes (entities) joined
//! inlet-to-outlet.  Each timestep the engine converts stored temperatures
//! into specific enthalpies, applies an explicit energy balance under the
//! well-mixed (CSTR) assumption, resolves new bulk temperatures through the
//! fluid model, propagates each entity's outlet temperature to the connected
//! downstream inlet, and finally promotes the new state to the old state.
//!
//! Every physical quantity is carried as a scaled integer (millikelvin,
//! milliwatt, and so on), so the whole calculation is exact integer
//! arithmetic and the energy bookkeeping can be stated and proved precisely.

use vstd::prelude::*;

pub mod units;
pub mod errors;
pub mod fluid;
pub mod entity;
pub mod network;
pub mod conservation;
pub mod common_functions;
pub mod thermal_resistance;
pub mod control_volume_traits;

verus! {

/// Sum of two machine-word counters.
pub fn add(left: usize, right: usize) -> (r: usize)
    requires
        left + right <= usize::MAX,
    ensures
        r == left + right,
{
    left + right
}

} // verus!
