use heat_transfer_rust::units::{Temperature, SpecificEnthalpy};
use heat_transfer_rust::fluid::dowtherm_a;
use heat_transfer_rust::errors::CalculationError;
use heat_transfer_rust::common_functions::TemperatureEnthalpyConversion;

#[test]
fn enthalpy_is_zero_at_the_bottom_of_the_range() {
    let f = dowtherm_a();
    let h = f.enthalpy(Temperature { millikelvin: 293_150 }).unwrap();
    assert_eq!(h.millijoule_per_kilogram, 0);
}

#[test]
fn enthalpy_at_300_kelvin() {
    let f = dowtherm_a();
    let h = f.enthalpy(Temperature { millikelvin: 300_000 }).unwrap();
    assert_eq!(h.millijoule_per_kilogram, 10_960_000);
}

#[test]
fn temperature_enthalpy_round_trip_is_exact() {
    let f = dowtherm_a();
    let temps = [293_150i64, 300_000, 305_923, 360_101, 453_150];
    for t in temps {
        let h = f.enthalpy(Temperature { millikelvin: t }).unwrap();
        let back = f.get_temperature_from_enthalpy(h).unwrap();
        assert_eq!(back.millikelvin, t);
    }
}

#[test]
fn conversion_trait_round_trip_is_exact() {
    let f = dowtherm_a();
    let t = Temperature { millikelvin: 321_450 };
    let h = f.temperature_to_enthalpy(t).unwrap();
    let back = f.enthalpy_to_temperature(h).unwrap();
    assert_eq!(back.millikelvin, t.millikelvin);
}

#[test]
fn lookups_outside_the_valid_range_are_refused() {
    let f = dowtherm_a();
    // 20 C is the bottom of the range; just below it every lookup fails.
    let cold = Temperature { millikelvin: 293_149 };
    assert_eq!(f.enthalpy(cold).unwrap_err(), CalculationError::OutOfRange);
    assert_eq!(f.density(cold).unwrap_err(), CalculationError::OutOfRange);
    assert_eq!(f.viscosity(cold).unwrap_err(), CalculationError::OutOfRange);
    let hot = Temperature { millikelvin: 453_151 };
    assert_eq!(f.enthalpy(hot).unwrap_err(), CalculationError::OutOfRange);
    let negative_h = SpecificEnthalpy { millijoule_per_kilogram: -1 };
    assert_eq!(
        f.get_temperature_from_enthalpy(negative_h).unwrap_err(),
        CalculationError::OutOfRange
    );
    let huge_h = SpecificEnthalpy { millijoule_per_kilogram: 1_600 * 160_000 + 1 };
    assert_eq!(
        f.get_temperature_from_enthalpy(huge_h).unwrap_err(),
        CalculationError::OutOfRange
    );
}

#[test]
fn density_falls_affinely_with_temperature() {
    let f = dowtherm_a();
    let rho20 = f.density(Temperature { millikelvin: 293_150 }).unwrap();
    assert_eq!(rho20.gram_per_cubic_metre, 1_061_000);
    let rho300 = f.density(Temperature { millikelvin: 300_000 }).unwrap();
    assert_eq!(rho300.gram_per_cubic_metre, 1_055_178);
    let rho_hot = f.density(Temperature { millikelvin: 453_150 }).unwrap();
    assert!(rho_hot.gram_per_cubic_metre > 0);
    assert!(rho_hot.gram_per_cubic_metre < rho300.gram_per_cubic_metre);
}

#[test]
fn remaining_properties_at_300_kelvin() {
    let f = dowtherm_a();
    let t = Temperature { millikelvin: 300_000 };
    assert_eq!(f.specific_heat_capacity(t).unwrap().joule_per_kilogram_kelvin, 1_600);
    assert_eq!(f.thermal_conductivity(t).unwrap().microwatt_per_metre_kelvin, 136_904);
    assert_eq!(f.viscosity(t).unwrap().micropascal_second, 3_247_672);
    // Viscosity falls as the fluid warms.
    let hot = Temperature { millikelvin: 400_000 };
    assert!(f.viscosity(hot).unwrap().micropascal_second < 3_247_672);
}
