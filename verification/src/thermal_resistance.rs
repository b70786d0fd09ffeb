//! Thermal-resistance heat-flow helpers.
//!
//! For conduction, `-(delta T) / Q = (delta x) / (k A)`; for convection,
//! `(delta T) / Q = 1 / (h A)`.  The helpers here take a set temperature
//! difference and the properties of the wall or film and return the heat
//! flow towards the recipient.  Resistances are carried in microkelvin
//! per watt, so `Q[mW] = dT[mK] * 1_000_000 / R[uK/W]`.

use vstd::prelude::*;
use vstd::arithmetic::div_mod::{lemma_div_is_ordered, lemma_div_by_self, lemma_div_nonincreasing};

use crate::units::{
    Temperature, Power, Area, Length, ThermalConductivity, HeatTransfer, TEMPERATURE_CAP,
    HEAT_TRANSFER_CAP, AREA_CAP, LENGTH_CAP, CONDUCTIVITY_CAP,
};
use crate::common_functions::{
    spec_scaled_power, calculate_convection_heat_flux_power_input, lemma_scaled_power_sign,
};

verus! {

/// Conductive resistance of one wall layer, in microkelvin per watt:
/// `R = (delta x) / (k A)` with the length in mm, the conductivity in
/// uW/(m K) and the area in mm^2.
pub open spec fn spec_wall_resistance(length: int, conductivity: int, area: int) -> int {
    (length * 1_000_000_000_000_000) / (conductivity * area)
}

/// Heat flow `dT / R` towards the recipient, in mW, for a temperature
/// difference in mK and a resistance in uK/W.
pub open spec fn spec_resistive_power(dt: int, resistance: int) -> int {
    if dt >= 0 {
        (dt * 1_000_000) / resistance
    } else {
        -(((-dt) * 1_000_000) / resistance)
    }
}

/// Product bound used to discharge fixed-point overflow checks.
proof fn lemma_product_bound(a: int, b: int, abound: int, bbound: int)
    by (nonlinear_arith)
    requires
        0 <= a <= abound,
        0 <= b <= bbound,
    ensures
        0 <= a * b <= abound * bbound,
{
}

/// A product of two factors that are at least one is at least one.
proof fn lemma_product_at_least_one(a: int, b: int)
    by (nonlinear_arith)
    requires
        1 <= a,
        1 <= b,
    ensures
        1 <= a * b,
{
}

/// A conductive layer that the fixed-point resistance scale can resolve:
/// dimensions inside the caps and a resistance of at least one uK/W.
pub open spec fn spec_layer_resolvable(length: int, conductivity: int, area: int) -> bool {
    &&& 1 <= length <= LENGTH_CAP
    &&& 1 <= conductivity <= CONDUCTIVITY_CAP
    &&& 1 <= area <= AREA_CAP
    &&& conductivity * area <= length * 1_000_000_000_000_000
}

/// The resistance of a resolvable layer is at least one and bounded.
proof fn lemma_wall_resistance_bounds(length: int, conductivity: int, area: int)
    requires
        spec_layer_resolvable(length, conductivity, area),
    ensures
        1 <= spec_wall_resistance(length, conductivity, area),
        spec_wall_resistance(length, conductivity, area) <= 1_000_000_000_000_000_000_000,
{
    let num = length * 1_000_000_000_000_000;
    let den = conductivity * area;
    lemma_product_bound(conductivity, area, CONDUCTIVITY_CAP as int, AREA_CAP as int);
    lemma_product_at_least_one(conductivity, area);
    lemma_product_bound(length, 1_000_000_000_000_000, LENGTH_CAP as int, 1_000_000_000_000_000);
    lemma_div_by_self(den);
    lemma_div_is_ordered(den, num, den);
    lemma_div_nonincreasing(num, den);
}

/// Shared body of the wall helpers: `dT * 1_000_000 / R` with the sign of
/// `dT`.
fn resistive_power(dt_millikelvin: i64, resistance: u128) -> (r: Power)
    requires
        -2 * TEMPERATURE_CAP <= dt_millikelvin <= 2 * TEMPERATURE_CAP,
        1 <= resistance <= 2_000_000_000_000_000_000_000,
    ensures
        r.milliwatt == spec_resistive_power(dt_millikelvin as int, resistance as int),
{
    if dt_millikelvin >= 0 {
        let num: u128 = (dt_millikelvin as u128) * 1_000_000;
        let q: u128 = num / resistance;
        proof {
            lemma_div_is_ordered(0, num as int, resistance as int);
            lemma_div_is_ordered(num as int, 4_000_000_000_000, resistance as int);
        }
        Power { milliwatt: q as i64 }
    } else {
        let num: u128 = ((-dt_millikelvin) as u128) * 1_000_000;
        let q: u128 = num / resistance;
        proof {
            lemma_div_is_ordered(0, num as int, resistance as int);
            lemma_div_is_ordered(num as int, 4_000_000_000_000, resistance as int);
        }
        Power { milliwatt: -(q as i64) }
    }
}

/// Heat flow towards the recipient through a single convection film:
/// `Q = (T_source - T_recipient) * h * A`, the resistance being
/// `1 / (h A)`.
pub fn obtain_power_through_single_convection_thermal_resistance(
    temperature_of_heat_recipient: Temperature,
    temperature_of_heat_source: Temperature,
    average_surface_area: Area,
    heat_transfer_coefficient: HeatTransfer,
) -> (r: Power)
    requires
        0 <= temperature_of_heat_recipient.millikelvin <= TEMPERATURE_CAP,
        0 <= temperature_of_heat_source.millikelvin <= TEMPERATURE_CAP,
        0 <= average_surface_area.square_millimetre <= AREA_CAP,
        0 <= heat_transfer_coefficient.milliwatt_per_square_metre_kelvin <= HEAT_TRANSFER_CAP,
    ensures
        r.milliwatt == spec_scaled_power(
            temperature_of_heat_source.millikelvin - temperature_of_heat_recipient.millikelvin,
            heat_transfer_coefficient.milliwatt_per_square_metre_kelvin as int,
            average_surface_area.square_millimetre as int,
        ),
        heat_transfer_coefficient.milliwatt_per_square_metre_kelvin >= 1
            && average_surface_area.square_millimetre >= 1 ==> {
            &&& (r.milliwatt > 0 <==> temperature_of_heat_source.millikelvin
                > temperature_of_heat_recipient.millikelvin)
            &&& (r.milliwatt < 0 <==> temperature_of_heat_source.millikelvin
                < temperature_of_heat_recipient.millikelvin)
            &&& (r.milliwatt == 0 <==> temperature_of_heat_source.millikelvin
                == temperature_of_heat_recipient.millikelvin)
        },
{
    proof {
        lemma_scaled_power_sign(
            temperature_of_heat_source.millikelvin - temperature_of_heat_recipient.millikelvin,
            heat_transfer_coefficient.milliwatt_per_square_metre_kelvin as int,
            average_surface_area.square_millimetre as int,
        );
    }
    calculate_convection_heat_flux_power_input(
        heat_transfer_coefficient,
        temperature_of_heat_source,
        temperature_of_heat_recipient,
        average_surface_area,
    )
}

/// Heat flow towards the recipient through one conductive wall layer:
/// `Q = (T_source - T_recipient) / R` with `R = (delta x) / (k A)`.
pub fn obtain_power_through_wall_thermal_resistance(
    temperature_of_heat_recipient: Temperature,
    temperature_of_heat_source: Temperature,
    average_thermal_conductivity: ThermalConductivity,
    average_surface_area: Area,
    length_of_wall: Length,
) -> (r: Power)
    requires
        0 <= temperature_of_heat_recipient.millikelvin <= TEMPERATURE_CAP,
        0 <= temperature_of_heat_source.millikelvin <= TEMPERATURE_CAP,
        spec_layer_resolvable(
            length_of_wall.millimetre as int,
            average_thermal_conductivity.microwatt_per_metre_kelvin as int,
            average_surface_area.square_millimetre as int,
        ),
    ensures
        r.milliwatt == spec_resistive_power(
            temperature_of_heat_source.millikelvin - temperature_of_heat_recipient.millikelvin,
            spec_wall_resistance(
                length_of_wall.millimetre as int,
                average_thermal_conductivity.microwatt_per_metre_kelvin as int,
                average_surface_area.square_millimetre as int,
            ),
        ),
{
    proof {
        lemma_wall_resistance_bounds(
            length_of_wall.millimetre as int,
            average_thermal_conductivity.microwatt_per_metre_kelvin as int,
            average_surface_area.square_millimetre as int,
        );
        lemma_product_bound(
            average_thermal_conductivity.microwatt_per_metre_kelvin as int,
            average_surface_area.square_millimetre as int,
            CONDUCTIVITY_CAP as int,
            AREA_CAP as int,
        );
        lemma_product_bound(
            length_of_wall.millimetre as int,
            1_000_000_000_000_000,
            LENGTH_CAP as int,
            1_000_000_000_000_000,
        );
    }
    proof {
        lemma_product_at_least_one(
            average_thermal_conductivity.microwatt_per_metre_kelvin as int,
            average_surface_area.square_millimetre as int,
        );
    }
    let denominator: u128 = (average_thermal_conductivity.microwatt_per_metre_kelvin as u128) * (
    average_surface_area.square_millimetre as u128);
    let resistance: u128 = ((length_of_wall.millimetre as u128) * 1_000_000_000_000_000u128)
        / denominator;
    let dt = temperature_of_heat_source.millikelvin - temperature_of_heat_recipient.millikelvin;
    resistive_power(dt, resistance)
}

/// Heat flow towards the recipient through a two-layer wall:
/// `Q = (T_source - T_recipient) / (R_1 + R_2)` with each layer's
/// resistance `(delta x) / (k A)`.
pub fn obtain_power_through_two_layer_wall_thermal_resistance(
    temperature_of_heat_recipient: Temperature,
    temperature_of_heat_source: Temperature,
    average_thermal_conductivity_layer_1: ThermalConductivity,
    average_thermal_conductivity_layer_2: ThermalConductivity,
    average_surface_area_1: Area,
    average_surface_area_2: Area,
    length_of_wall_1: Length,
    length_of_wall_2: Length,
) -> (r: Power)
    requires
        0 <= temperature_of_heat_recipient.millikelvin <= TEMPERATURE_CAP,
        0 <= temperature_of_heat_source.millikelvin <= TEMPERATURE_CAP,
        spec_layer_resolvable(
            length_of_wall_1.millimetre as int,
            average_thermal_conductivity_layer_1.microwatt_per_metre_kelvin as int,
            average_surface_area_1.square_millimetre as int,
        ),
        spec_layer_resolvable(
            length_of_wall_2.millimetre as int,
            average_thermal_conductivity_layer_2.microwatt_per_metre_kelvin as int,
            average_surface_area_2.square_millimetre as int,
        ),
    ensures
        r.milliwatt == spec_resistive_power(
            temperature_of_heat_source.millikelvin - temperature_of_heat_recipient.millikelvin,
            spec_wall_resistance(
                length_of_wall_1.millimetre as int,
                average_thermal_conductivity_layer_1.microwatt_per_metre_kelvin as int,
                average_surface_area_1.square_millimetre as int,
            ) + spec_wall_resistance(
                length_of_wall_2.millimetre as int,
                average_thermal_conductivity_layer_2.microwatt_per_metre_kelvin as int,
                average_surface_area_2.square_millimetre as int,
            ),
        ),
{
    proof {
        lemma_wall_resistance_bounds(
            length_of_wall_1.millimetre as int,
            average_thermal_conductivity_layer_1.microwatt_per_metre_kelvin as int,
            average_surface_area_1.square_millimetre as int,
        );
        lemma_wall_resistance_bounds(
            length_of_wall_2.millimetre as int,
            average_thermal_conductivity_layer_2.microwatt_per_metre_kelvin as int,
            average_surface_area_2.square_millimetre as int,
        );
        lemma_product_bound(
            average_thermal_conductivity_layer_1.microwatt_per_metre_kelvin as int,
            average_surface_area_1.square_millimetre as int,
            CONDUCTIVITY_CAP as int,
            AREA_CAP as int,
        );
        lemma_product_bound(
            average_thermal_conductivity_layer_2.microwatt_per_metre_kelvin as int,
            average_surface_area_2.square_millimetre as int,
            CONDUCTIVITY_CAP as int,
            AREA_CAP as int,
        );
        lemma_product_bound(
            length_of_wall_1.millimetre as int,
            1_000_000_000_000_000,
            LENGTH_CAP as int,
            1_000_000_000_000_000,
        );
        lemma_product_bound(
            length_of_wall_2.millimetre as int,
            1_000_000_000_000_000,
            LENGTH_CAP as int,
            1_000_000_000_000_000,
        );
    }
    proof {
        lemma_product_at_least_one(
            average_thermal_conductivity_layer_1.microwatt_per_metre_kelvin as int,
            average_surface_area_1.square_millimetre as int,
        );
        lemma_product_at_least_one(
            average_thermal_conductivity_layer_2.microwatt_per_metre_kelvin as int,
            average_surface_area_2.square_millimetre as int,
        );
    }
    let denominator_1: u128 = (average_thermal_conductivity_layer_1.microwatt_per_metre_kelvin
        as u128) * (average_surface_area_1.square_millimetre as u128);
    let resistance_1: u128 = ((length_of_wall_1.millimetre as u128) * 1_000_000_000_000_000u128)
        / denominator_1;
    let denominator_2: u128 = (average_thermal_conductivity_layer_2.microwatt_per_metre_kelvin
        as u128) * (average_surface_area_2.square_millimetre as u128);
    let resistance_2: u128 = ((length_of_wall_2.millimetre as u128) * 1_000_000_000_000_000u128)
        / denominator_2;
    let dt = temperature_of_heat_source.millikelvin - temperature_of_heat_recipient.millikelvin;
    resistive_power(dt, resistance_1 + resistance_2)
}

} // verus!
