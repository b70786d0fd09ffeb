//! Generic control-volume traits.
//!
//! A control volume here is any fixed region of space with fluid carrying
//! enthalpy across its boundary, together with heat and work as in the
//! first law of thermodynamics; unlike the pipe entity, nothing restricts
//! it to a single inflow and outflow.  The associated calculation produces
//! the specific enthalpy at the next timestep under the assumption that
//! the control-volume mass does not change significantly.

use vstd::prelude::*;
use vstd::arithmetic::div_mod::{lemma_div_is_ordered, lemma_fundamental_div_mod, lemma_mod_bound};

use crate::units::{
    SpecificEnthalpy, Power, Time, Mass, EnthalpyFlow, POWER_CAP, TIME_CAP, ENTHALPY_FLOW_CAP,
};
use crate::common_functions::spec_enthalpy_next_timestep;
use crate::entity::ControlVolumeEntity;
use crate::errors::CalculationError;

verus! {

/// Largest specific enthalpy the generic calculation will report, in
/// mJ/kg.
pub const SPECIFIC_ENTHALPY_CAP: i64 = 1_000_000_000_000;

/// Marker for types that model a control volume.
pub trait ControlVolume {

}

impl ControlVolume for ControlVolumeEntity {

}

/// Associated calculations of a control volume.
pub trait ControlVolumeAssociatedFunctions {
    /// Calculates the specific enthalpy of a control volume at the next
    /// timestep from the enthalpy flows, heat and work rates, and the
    /// current state, assuming the control-volume mass does not change.
    /// Fails with `OutOfRange`, rather than truncating, if and only if the
    /// new specific enthalpy falls outside `[0, SPECIFIC_ENTHALPY_CAP]`.
    fn calculate_specific_enthalpy_at_next_timestep(
        current_timestep_control_volume_specific_enthalpy: SpecificEnthalpy,
        current_timestep_control_volume_mass: Mass,
        timestep: Time,
        enthalpy_out: EnthalpyFlow,
        enthalpy_in: EnthalpyFlow,
        heat_supplied_to_system: Power,
        work_done_on_system: Power,
    ) -> (r: Result<SpecificEnthalpy, CalculationError>)
        requires
            0 <= current_timestep_control_volume_specific_enthalpy.millijoule_per_kilogram
                <= SPECIFIC_ENTHALPY_CAP,
            1 <= current_timestep_control_volume_mass.nanogram,
            1 <= timestep.millisecond <= TIME_CAP,
            -ENTHALPY_FLOW_CAP <= enthalpy_out.nanowatt <= ENTHALPY_FLOW_CAP,
            -ENTHALPY_FLOW_CAP <= enthalpy_in.nanowatt <= ENTHALPY_FLOW_CAP,
            -POWER_CAP <= heat_supplied_to_system.milliwatt <= POWER_CAP,
            -POWER_CAP <= work_done_on_system.milliwatt <= POWER_CAP,
        ensures
            ({
                let total = spec_enthalpy_next_timestep(
                    timestep.millisecond as int,
                    enthalpy_out.nanowatt as int,
                    enthalpy_in.nanowatt as int,
                    heat_supplied_to_system.milliwatt as int,
                    work_done_on_system.milliwatt as int,
                    (current_timestep_control_volume_mass.nanogram as int) * (
                    current_timestep_control_volume_specific_enthalpy.millijoule_per_kilogram
                        as int),
                );
                let new_h = total / (current_timestep_control_volume_mass.nanogram as int);
                match r {
                    Ok(h) => 0 <= new_h <= SPECIFIC_ENTHALPY_CAP && h.millijoule_per_kilogram
                        == new_h,
                    Err(e) => !(0 <= new_h <= SPECIFIC_ENTHALPY_CAP) && e
                        == CalculationError::OutOfRange,
                }
            }),
    ;
}

/// Product bound used to discharge fixed-point overflow checks.
proof fn lemma_signed_product_bound(a: int, b: int, abound: int, bbound: int)
    by (nonlinear_arith)
    requires
        -abound <= a <= abound,
        -bbound <= b <= bbound,
        0 <= abound,
        0 <= bbound,
    ensures
        -(abound * bbound) <= a * b <= abound * bbound,
{
}

impl ControlVolumeAssociatedFunctions for ControlVolumeEntity {
    fn calculate_specific_enthalpy_at_next_timestep(
        current_timestep_control_volume_specific_enthalpy: SpecificEnthalpy,
        current_timestep_control_volume_mass: Mass,
        timestep: Time,
        enthalpy_out: EnthalpyFlow,
        enthalpy_in: EnthalpyFlow,
        heat_supplied_to_system: Power,
        work_done_on_system: Power,
    ) -> (r: Result<SpecificEnthalpy, CalculationError>) {
        let mass = current_timestep_control_volume_mass.nanogram;
        proof {
            lemma_signed_product_bound(
                mass as int,
                current_timestep_control_volume_specific_enthalpy.millijoule_per_kilogram as int,
                0x8000_0000_0000_0000,
                SPECIFIC_ENTHALPY_CAP as int,
            );
        }
        let current_total: i128 = (mass as i128) * (
        current_timestep_control_volume_specific_enthalpy.millijoule_per_kilogram as i128);
        let rate: i128 = enthalpy_in.nanowatt - enthalpy_out.nanowatt + 1_000_000i128 * ((
        heat_supplied_to_system.milliwatt as i128) + (work_done_on_system.milliwatt as i128));
        proof {
            lemma_signed_product_bound(
                1000 * (timestep.millisecond as int),
                rate as int,
                1000 * (TIME_CAP as int),
                3 * (ENTHALPY_FLOW_CAP as int),
            );
        }
        let total: i128 = (1000i128 * (timestep.millisecond as i128)) * rate + current_total;
        if total < 0 {
            proof {
                let m = mass as int;
                let q = (total as int) / m;
                lemma_fundamental_div_mod(total as int, m);
                lemma_mod_bound(total as int, m);
                assert(q < 0) by (nonlinear_arith)
                    requires
                        1 <= m,
                        total as int == m * q + (total as int) % m,
                        0 <= (total as int) % m < m,
                        total < 0,
                ;
            }
            return Err(CalculationError::OutOfRange);
        }
        let quotient: u128 = (total as u128) / (mass as u128);
        proof {
            lemma_div_is_ordered(0, total as int, mass as int);
        }
        if quotient > (SPECIFIC_ENTHALPY_CAP as u128) {
            return Err(CalculationError::OutOfRange);
        }
        Ok(SpecificEnthalpy { millijoule_per_kilogram: quotient as i64 })
    }
}

} // verus!
