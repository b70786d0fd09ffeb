//! Fixed-point physical quantities.
//!
//! Every quantity is an integer in a fixed sub-SI unit, chosen so that all
//! the arithmetic the engine performs stays exact:
//!
//! * temperature: millikelvin (mK)
//! * temperature interval: millikelvin, signed
//! * specific enthalpy: millijoule per kilogram (mJ/kg)
//! * power: milliwatt (mW)
//! * mass flow rate: milligram per second (mg/s)
//! * time: millisecond (ms)
//! * volume: cubic millimetre (mm^3)
//! * mass density: gram per cubic metre (g/m^3)
//! * mass: nanogram (ng), the exact product of a density and a volume
//! * enthalpy flow rate: nanowatt (nW), the exact product of a mass flow
//!   rate and a specific enthalpy
//! * energy: femtojoule (fJ), the exact product of a mass and a specific
//!   enthalpy
//! * heat transfer coefficient: milliwatt per square metre kelvin
//! * area: square millimetre
//! * length: millimetre
//! * thermal conductivity: microwatt per metre kelvin
//! * specific heat capacity: joule per kilogram kelvin, which is the same
//!   number as millijoule per kilogram per millikelvin
//! * dynamic viscosity: micropascal second

use vstd::prelude::*;

verus! {

/// Largest thermodynamic temperature the quantity layer accepts, in
/// millikelvin (2000 K).
pub const TEMPERATURE_CAP: i64 = 2_000_000;

/// Largest magnitude of power accepted, in milliwatt (1 GW).
pub const POWER_CAP: i64 = 1_000_000_000_000;

/// Largest magnitude of mass flow rate accepted, in milligram per second
/// (1000 t/s).
pub const MASS_RATE_CAP: i64 = 1_000_000_000_000;

/// Largest timestep accepted, in millisecond (about 28 hours).
pub const TIME_CAP: i64 = 100_000_000;

/// Largest fluid volume accepted, in cubic millimetre (1 m^3).
pub const VOLUME_CAP: i64 = 1_000_000_000;

/// Largest heat transfer coefficient accepted, in mW/(m^2 K) (1 MW/(m^2 K)).
pub const HEAT_TRANSFER_CAP: i64 = 1_000_000_000;

/// Largest area accepted, in mm^2 (1000 m^2).
pub const AREA_CAP: i64 = 1_000_000_000;

/// Largest wall length accepted, in mm (1 km).
pub const LENGTH_CAP: i64 = 1_000_000;

/// Largest thermal conductivity accepted, in uW/(m K) (10 kW/(m K)).
pub const CONDUCTIVITY_CAP: i64 = 10_000_000_000;

/// Largest magnitude of enthalpy flow rate accepted, in nW.
pub const ENTHALPY_FLOW_CAP: i128 = 1_000_000_000_000_000_000_000_000;

/// Largest magnitude of energy accepted, in fJ.
pub const ENERGY_CAP: i128 = 1_000_000_000_000_000_000_000_000_000_000;

/// Thermodynamic temperature in millikelvin.
#[derive(Clone, Copy, Debug, PartialEq, Eq, Structural)]
pub struct Temperature {
    pub millikelvin: i64,
}

/// Difference of two thermodynamic temperatures, in millikelvin; may be
/// negative.
#[derive(Clone, Copy, Debug, PartialEq, Eq, Structural)]
pub struct TemperatureInterval {
    pub millikelvin: i64,
}

/// Specific (per unit mass) enthalpy in millijoule per kilogram.
#[derive(Clone, Copy, Debug, PartialEq, Eq, Structural)]
pub struct SpecificEnthalpy {
    pub millijoule_per_kilogram: i64,
}

/// Power in milliwatt; may be negative (heat loss, work extracted).
#[derive(Clone, Copy, Debug, PartialEq, Eq, Structural)]
pub struct Power {
    pub milliwatt: i64,
}

/// Mass flow rate in milligram per second.
#[derive(Clone, Copy, Debug, PartialEq, Eq, Structural)]
pub struct MassRate {
    pub milligram_per_second: i64,
}

/// Duration in millisecond.
#[derive(Clone, Copy, Debug, PartialEq, Eq, Structural)]
pub struct Time {
    pub millisecond: i64,
}

/// Volume in cubic millimetre.
#[derive(Clone, Copy, Debug, PartialEq, Eq, Structural)]
pub struct Volume {
    pub cubic_millimetre: i64,
}

/// Mass density in gram per cubic metre.
#[derive(Clone, Copy, Debug, PartialEq, Eq, Structural)]
pub struct MassDensity {
    pub gram_per_cubic_metre: i64,
}

/// Mass in nanogram.
#[derive(Clone, Copy, Debug, PartialEq, Eq, Structural)]
pub struct Mass {
    pub nanogram: i64,
}

/// Enthalpy flow rate in nanowatt.
#[derive(Clone, Copy, Debug, PartialEq, Eq, Structural)]
pub struct EnthalpyFlow {
    pub nanowatt: i128,
}

/// Energy in femtojoule.
#[derive(Clone, Copy, Debug, PartialEq, Eq, Structural)]
pub struct Energy {
    pub femtojoule: i128,
}

/// Convective heat transfer coefficient in milliwatt per square metre
/// kelvin.
#[derive(Clone, Copy, Debug, PartialEq, Eq, Structural)]
pub struct HeatTransfer {
    pub milliwatt_per_square_metre_kelvin: i64,
}

/// Area in square millimetre.
#[derive(Clone, Copy, Debug, PartialEq, Eq, Structural)]
pub struct Area {
    pub square_millimetre: i64,
}

/// Length in millimetre.
#[derive(Clone, Copy, Debug, PartialEq, Eq, Structural)]
pub struct Length {
    pub millimetre: i64,
}

/// Thermal conductivity in microwatt per metre kelvin.
#[derive(Clone, Copy, Debug, PartialEq, Eq, Structural)]
pub struct ThermalConductivity {
    pub microwatt_per_metre_kelvin: i64,
}

/// Specific heat capacity in joule per kilogram kelvin.
#[derive(Clone, Copy, Debug, PartialEq, Eq, Structural)]
pub struct SpecificHeatCapacity {
    pub joule_per_kilogram_kelvin: i64,
}

/// Dynamic viscosity in micropascal second.
#[derive(Clone, Copy, Debug, PartialEq, Eq, Structural)]
pub struct DynamicViscosity {
    pub micropascal_second: i64,
}

} // verus!
