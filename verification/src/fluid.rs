//! Fluid property provider.
//!
//! The engine consumes fluid properties only through this capability object:
//! a [`FluidModel`] value carries the coefficients of one working fluid, so a
//! different fluid is substituted by handing the network a different value,
//! without touching the core state machine.
//!
//! The model is fixed point.  Specific enthalpy is affine in temperature
//! (`h = cp * (T - T_min)` with a constant specific heat), density and
//! thermal conductivity fall affinely with temperature, and dynamic
//! viscosity falls as the reciprocal of the distance to a reference
//! temperature.  Zero specific enthalpy is assumed at the bottom of the
//! valid range and everything is calculated from there.  Lookups outside the
//! valid range fail with [`CalculationError::OutOfRange`] rather than
//! silently extrapolating.

use vstd::prelude::*;
use vstd::arithmetic::div_mod::{lemma_div_is_ordered, lemma_div_multiples_vanish};

use crate::units::{
    Temperature, SpecificEnthalpy, MassDensity, SpecificHeatCapacity, ThermalConductivity,
    DynamicViscosity, TEMPERATURE_CAP,
};
use crate::errors::CalculationError;

verus! {

/// Coefficients of one working fluid, in the fixed-point units of
/// [`crate::units`].
#[derive(Clone, Copy, Debug, PartialEq, Eq, Structural)]
pub struct FluidModel {
    /// Bottom of the valid temperature range; also the zero point of
    /// specific enthalpy.
    pub min_temperature: Temperature,
    /// Top of the valid temperature range.
    pub max_temperature: Temperature,
    /// Constant specific heat capacity, J/(kg K), which equals mJ/kg per mK.
    pub specific_heat: i64,
    /// Density at `min_temperature`, g/m^3.
    pub density_at_min: i64,
    /// Fall of density per kelvin of warming, g/(m^3 K).
    pub density_slope: i64,
    /// Thermal conductivity at `min_temperature`, uW/(m K).
    pub conductivity_at_min: i64,
    /// Fall of thermal conductivity per kelvin of warming, uW/(m K K).
    pub conductivity_slope: i64,
    /// Numerator of the reciprocal viscosity law, uPa s mK.
    pub viscosity_numerator: i64,
    /// Reference temperature of the viscosity law, strictly below
    /// `min_temperature`, mK.
    pub viscosity_reference: i64,
}

impl FluidModel {
    /// The coefficient ranges every valid fluid model obeys; they keep all
    /// fixed-point products inside the machine word sizes and all
    /// properties strictly positive across the valid temperature range.
    pub open spec fn wf(self) -> bool {
        &&& 200_000 <= self.min_temperature.millikelvin
        &&& self.min_temperature.millikelvin < self.max_temperature.millikelvin
        &&& self.max_temperature.millikelvin <= TEMPERATURE_CAP
        &&& self.max_temperature.millikelvin - self.min_temperature.millikelvin <= 1_000_000
        &&& 1 <= self.specific_heat <= 100_000
        &&& 1 <= self.density_at_min <= 100_000_000
        &&& 0 <= self.density_slope <= 100_000
        &&& self.density_at_min - (self.density_slope
            * (self.max_temperature.millikelvin - self.min_temperature.millikelvin)) / 1000 >= 1
        &&& 1 <= self.conductivity_at_min <= 10_000_000_000
        &&& 0 <= self.conductivity_slope <= 100_000
        &&& self.conductivity_at_min - (self.conductivity_slope
            * (self.max_temperature.millikelvin - self.min_temperature.millikelvin)) / 1000 >= 1
        &&& 1 <= self.viscosity_numerator <= 1_000_000_000_000
        &&& 1_000 <= self.viscosity_reference
        &&& self.viscosity_reference < self.min_temperature.millikelvin
    }

    /// Whether a temperature lies in the valid correlation range.
    pub open spec fn spec_valid_temperature(self, t: int) -> bool {
        self.min_temperature.millikelvin <= t <= self.max_temperature.millikelvin
    }

    /// Largest representable specific enthalpy: the enthalpy at the top of
    /// the valid range.
    pub open spec fn spec_max_enthalpy(self) -> int {
        self.specific_heat * (self.max_temperature.millikelvin - self.min_temperature.millikelvin)
    }

    /// Whether a specific enthalpy lies in the valid range.
    pub open spec fn spec_valid_enthalpy(self, h: int) -> bool {
        0 <= h <= self.spec_max_enthalpy()
    }

    /// Specific enthalpy of the fluid at temperature `t` (mK), in mJ/kg.
    pub open spec fn spec_enthalpy(self, t: int) -> int {
        self.specific_heat * (t - self.min_temperature.millikelvin)
    }

    /// Temperature (mK) of the fluid at specific enthalpy `h` (mJ/kg).
    pub open spec fn spec_temperature_from_enthalpy(self, h: int) -> int {
        self.min_temperature.millikelvin + h / (self.specific_heat as int)
    }

    /// Density of the fluid at temperature `t` (mK), in g/m^3.
    pub open spec fn spec_density(self, t: int) -> int {
        self.density_at_min - (self.density_slope * (t - self.min_temperature.millikelvin)) / 1000
    }

    /// Thermal conductivity of the fluid at temperature `t` (mK), in
    /// uW/(m K).
    pub open spec fn spec_thermal_conductivity(self, t: int) -> int {
        self.conductivity_at_min
            - (self.conductivity_slope * (t - self.min_temperature.millikelvin)) / 1000
    }

    /// Dynamic viscosity of the fluid at temperature `t` (mK), in uPa s.
    pub open spec fn spec_viscosity(self, t: int) -> int {
        (self.viscosity_numerator as int) / (t - self.viscosity_reference)
    }
}

/// A valid enthalpy always lands inside the valid temperature range when
/// converted back to a temperature.
pub proof fn lemma_enthalpy_to_temperature_in_range(f: FluidModel, h: int)
    requires
        f.wf(),
        f.spec_valid_enthalpy(h),
    ensures
        f.spec_valid_temperature(f.spec_temperature_from_enthalpy(h)),
{
    let cp = f.specific_heat as int;
    let span = f.max_temperature.millikelvin - f.min_temperature.millikelvin;
    lemma_div_is_ordered(0, h, cp);
    lemma_div_is_ordered(h, cp * span, cp);
    lemma_div_multiples_vanish(span, cp);
}

/// Round trip: converting a valid temperature to a specific enthalpy and
/// back returns exactly the same temperature.  This holds for every valid
/// fluid model, because the enthalpy of a grid temperature is an exact
/// multiple of the specific heat.
pub proof fn lemma_temperature_enthalpy_round_trip(f: FluidModel, t: int)
    requires
        f.wf(),
        f.spec_valid_temperature(t),
    ensures
        f.spec_valid_enthalpy(f.spec_enthalpy(t)),
        f.spec_temperature_from_enthalpy(f.spec_enthalpy(t)) == t,
{
    let cp = f.specific_heat as int;
    let d = t - f.min_temperature.millikelvin;
    let span = f.max_temperature.millikelvin - f.min_temperature.millikelvin;
    assert(0 <= cp * d <= cp * span) by (nonlinear_arith)
        requires
            0 <= d <= span,
            cp >= 1,
    ;
    lemma_div_multiples_vanish(d, cp);
}

/// Density stays strictly positive and bounded across the valid
/// temperature range.
pub proof fn lemma_density_positive(f: FluidModel, t: int)
    requires
        f.wf(),
        f.spec_valid_temperature(t),
    ensures
        1 <= f.spec_density(t) <= 100_000_000,
{
    let d = t - f.min_temperature.millikelvin;
    let span = f.max_temperature.millikelvin - f.min_temperature.millikelvin;
    let slope = f.density_slope as int;
    assert(0 <= slope * d <= slope * span) by (nonlinear_arith)
        requires
            0 <= d <= span,
            0 <= slope,
    ;
    lemma_div_is_ordered(0, slope * d, 1000);
    lemma_div_is_ordered(slope * d, slope * span, 1000);
}

/// Product bound used to discharge fixed-point overflow checks.
proof fn lemma_product_bound(a: int, b: int, abound: int, bbound: int)
    by (nonlinear_arith)
    requires
        0 <= a <= abound,
        0 <= b <= bbound,
    ensures
        0 <= a * b <= abound * bbound,
{
}

impl FluidModel {
    /// Specific enthalpy at a temperature; fails if and only if the
    /// temperature is outside the valid range.
    pub fn enthalpy(&self, fluid_temp: Temperature) -> (r: Result<
        SpecificEnthalpy,
        CalculationError,
    >)
        requires
            self.wf(),
        ensures
            match r {
                Ok(h) => self.spec_valid_temperature(fluid_temp.millikelvin as int)
                    && h.millijoule_per_kilogram
                    == self.spec_enthalpy(fluid_temp.millikelvin as int)
                    && self.spec_valid_enthalpy(h.millijoule_per_kilogram as int),
                Err(e) => !self.spec_valid_temperature(fluid_temp.millikelvin as int)
                    && e == CalculationError::OutOfRange,
            },
    {
        let t = fluid_temp.millikelvin;
        if t < self.min_temperature.millikelvin || t > self.max_temperature.millikelvin {
            return Err(CalculationError::OutOfRange);
        }
        let d = t - self.min_temperature.millikelvin;
        proof {
            lemma_product_bound(
                self.specific_heat as int,
                d as int,
                100_000,
                1_000_000,
            );
            lemma_product_bound(
                self.specific_heat as int,
                d as int,
                self.specific_heat as int,
                self.max_temperature.millikelvin - self.min_temperature.millikelvin,
            );
        }
        let h = self.specific_heat * d;
        Ok(SpecificEnthalpy { millijoule_per_kilogram: h })
    }

    /// Temperature at a specific enthalpy; fails if and only if the
    /// enthalpy is outside the valid range.
    pub fn get_temperature_from_enthalpy(&self, fluid_enthalpy: SpecificEnthalpy) -> (r: Result<
        Temperature,
        CalculationError,
    >)
        requires
            self.wf(),
        ensures
            match r {
                Ok(t) => self.spec_valid_enthalpy(fluid_enthalpy.millijoule_per_kilogram as int)
                    && t.millikelvin
                    == self.spec_temperature_from_enthalpy(
                        fluid_enthalpy.millijoule_per_kilogram as int,
                    )
                    && self.spec_valid_temperature(t.millikelvin as int),
                Err(e) => !self.spec_valid_enthalpy(fluid_enthalpy.millijoule_per_kilogram as int)
                    && e == CalculationError::OutOfRange,
            },
    {
        let h = fluid_enthalpy.millijoule_per_kilogram;
        if h < 0 {
            return Err(CalculationError::OutOfRange);
        }
        let span = self.max_temperature.millikelvin - self.min_temperature.millikelvin;
        proof {
            lemma_product_bound(self.specific_heat as int, span as int, 100_000, 1_000_000);
        }
        let max_h = self.specific_heat * span;
        if h > max_h {
            return Err(CalculationError::OutOfRange);
        }
        let q = (h as u64) / (self.specific_heat as u64);
        proof {
            lemma_div_is_ordered(h as int, max_h as int, self.specific_heat as int);
            lemma_div_multiples_vanish(span as int, self.specific_heat as int);
            lemma_div_is_ordered(0, h as int, self.specific_heat as int);
        }
        Ok(Temperature { millikelvin: self.min_temperature.millikelvin + (q as i64) })
    }

    /// Density at a temperature; fails if and only if the temperature is
    /// outside the valid range.  Always strictly positive on success.
    pub fn density(&self, fluid_temp: Temperature) -> (r: Result<MassDensity, CalculationError>)
        requires
            self.wf(),
        ensures
            match r {
                Ok(rho) => self.spec_valid_temperature(fluid_temp.millikelvin as int)
                    && rho.gram_per_cubic_metre
                    == self.spec_density(fluid_temp.millikelvin as int)
                    && 1 <= rho.gram_per_cubic_metre <= 100_000_000,
                Err(e) => !self.spec_valid_temperature(fluid_temp.millikelvin as int)
                    && e == CalculationError::OutOfRange,
            },
    {
        let t = fluid_temp.millikelvin;
        if t < self.min_temperature.millikelvin || t > self.max_temperature.millikelvin {
            return Err(CalculationError::OutOfRange);
        }
        let d = t - self.min_temperature.millikelvin;
        let span = self.max_temperature.millikelvin - self.min_temperature.millikelvin;
        proof {
            lemma_product_bound(self.density_slope as int, d as int, 100_000, 1_000_000);
            lemma_product_bound(
                self.density_slope as int,
                d as int,
                self.density_slope as int,
                span as int,
            );
            lemma_div_is_ordered(
                self.density_slope * d,
                self.density_slope * span,
                1000,
            );
            lemma_div_is_ordered(0, self.density_slope * d, 1000);
        }
        let fall = ((self.density_slope as u64) * (d as u64)) / 1000;
        Ok(MassDensity { gram_per_cubic_metre: self.density_at_min - (fall as i64) })
    }

    /// Specific heat capacity at a temperature; constant across the valid
    /// range, fails if and only if the temperature is outside it.
    pub fn specific_heat_capacity(&self, fluid_temp: Temperature) -> (r: Result<
        SpecificHeatCapacity,
        CalculationError,
    >)
        requires
            self.wf(),
        ensures
            match r {
                Ok(cp) => self.spec_valid_temperature(fluid_temp.millikelvin as int)
                    && cp.joule_per_kilogram_kelvin == self.specific_heat,
                Err(e) => !self.spec_valid_temperature(fluid_temp.millikelvin as int)
                    && e == CalculationError::OutOfRange,
            },
    {
        let t = fluid_temp.millikelvin;
        if t < self.min_temperature.millikelvin || t > self.max_temperature.millikelvin {
            return Err(CalculationError::OutOfRange);
        }
        Ok(SpecificHeatCapacity { joule_per_kilogram_kelvin: self.specific_heat })
    }

    /// Thermal conductivity at a temperature; fails if and only if the
    /// temperature is outside the valid range.  Always strictly positive on
    /// success.
    pub fn thermal_conductivity(&self, fluid_temp: Temperature) -> (r: Result<
        ThermalConductivity,
        CalculationError,
    >)
        requires
            self.wf(),
        ensures
            match r {
                Ok(k) => self.spec_valid_temperature(fluid_temp.millikelvin as int)
                    && k.microwatt_per_metre_kelvin
                    == self.spec_thermal_conductivity(fluid_temp.millikelvin as int)
                    && 1 <= k.microwatt_per_metre_kelvin,
                Err(e) => !self.spec_valid_temperature(fluid_temp.millikelvin as int)
                    && e == CalculationError::OutOfRange,
            },
    {
        let t = fluid_temp.millikelvin;
        if t < self.min_temperature.millikelvin || t > self.max_temperature.millikelvin {
            return Err(CalculationError::OutOfRange);
        }
        let d = t - self.min_temperature.millikelvin;
        let span = self.max_temperature.millikelvin - self.min_temperature.millikelvin;
        proof {
            lemma_product_bound(self.conductivity_slope as int, d as int, 100_000, 1_000_000);
            lemma_product_bound(
                self.conductivity_slope as int,
                d as int,
                self.conductivity_slope as int,
                span as int,
            );
            lemma_div_is_ordered(
                self.conductivity_slope * d,
                self.conductivity_slope * span,
                1000,
            );
            lemma_div_is_ordered(0, self.conductivity_slope * d, 1000);
        }
        let fall = ((self.conductivity_slope as u64) * (d as u64)) / 1000;
        Ok(ThermalConductivity {
            microwatt_per_metre_kelvin: self.conductivity_at_min - (fall as i64),
        })
    }

    /// Dynamic viscosity at a temperature; fails if and only if the
    /// temperature is outside the valid range.  Always nonnegative on
    /// success.
    pub fn viscosity(&self, fluid_temp: Temperature) -> (r: Result<
        DynamicViscosity,
        CalculationError,
    >)
        requires
            self.wf(),
        ensures
            match r {
                Ok(mu) => self.spec_valid_temperature(fluid_temp.millikelvin as int)
                    && mu.micropascal_second == self.spec_viscosity(fluid_temp.millikelvin as int)
                    && 0 <= mu.micropascal_second,
                Err(e) => !self.spec_valid_temperature(fluid_temp.millikelvin as int)
                    && e == CalculationError::OutOfRange,
            },
    {
        let t = fluid_temp.millikelvin;
        if t < self.min_temperature.millikelvin || t > self.max_temperature.millikelvin {
            return Err(CalculationError::OutOfRange);
        }
        let gap = t - self.viscosity_reference;
        let mu = (self.viscosity_numerator as u64) / (gap as u64);
        proof {
            lemma_div_is_ordered(0, self.viscosity_numerator as int, gap as int);
            lemma_div_is_ordered(
                self.viscosity_numerator as int,
                1_000_000_000_000,
                gap as int,
            );
        }
        Ok(DynamicViscosity { micropascal_second: mu as i64 })
    }
}

/// The working fluid of the reference scenarios: a heat-transfer oil of the
/// Dowtherm A family, valid from 20 C to 180 C, with zero specific enthalpy
/// at 20 C, density about 1055 kg/m^3 and specific heat 1600 J/(kg K) near
/// 300 K.
pub fn dowtherm_a() -> (f: FluidModel)
    ensures
        f.wf(),
        f.min_temperature.millikelvin == 293_150,
        f.max_temperature.millikelvin == 453_150,
        f.specific_heat == 1_600,
        f.density_at_min == 1_061_000,
        f.density_slope == 850,
        f.conductivity_at_min == 138_000,
        f.conductivity_slope == 160,
        f.viscosity_numerator == 87_200_000_000,
        f.viscosity_reference == 273_150,
{
    FluidModel {
        min_temperature: Temperature { millikelvin: 293_150 },
        max_temperature: Temperature { millikelvin: 453_150 },
        specific_heat: 1_600,
        density_at_min: 1_061_000,
        density_slope: 850,
        conductivity_at_min: 138_000,
        conductivity_slope: 160,
        viscosity_numerator: 87_200_000_000,
        viscosity_reference: 273_150,
    }
}

} // verus!
