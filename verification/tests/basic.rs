use heat_transfer_rust::add;
use heat_transfer_rust::units::{
    Temperature, TemperatureInterval, SpecificEnthalpy, Power, MassRate, Time, Mass, Energy,
    EnthalpyFlow, HeatTransfer, Area, Length, ThermalConductivity,
};
use heat_transfer_rust::errors::CalculationError;
use heat_transfer_rust::common_functions::{
    get_control_volume_enthalpy_next_timestep, calculate_enthalpy_flow,
    calculate_convection_heat_flux_power_input, temperature_interval_to_thermodynamic_temperature,
    thermodynamic_temperature_to_temperature_interval, subtract_two_thermodynamic_temperatures,
};
use heat_transfer_rust::thermal_resistance::{
    obtain_power_through_single_convection_thermal_resistance,
    obtain_power_through_wall_thermal_resistance,
    obtain_power_through_two_layer_wall_thermal_resistance,
};
use heat_transfer_rust::control_volume_traits::ControlVolumeAssociatedFunctions;
use heat_transfer_rust::entity::ControlVolumeEntity;

#[test]
fn it_works() {
    let result = add(2, 2);
    assert_eq!(result, 4);
}

#[test]
fn error_descriptions_are_distinct() {
    let a = CalculationError::OutOfRange.describe();
    let b = CalculationError::UnconnectedEntity.describe();
    let c = CalculationError::PhysicallyInvalidInput.describe();
    assert!(!a.is_empty());
    assert_ne!(a, b);
    assert_ne!(b, c);
    assert_ne!(a, c);
}

#[test]
fn temperature_interval_conversions_shift_by_273_15_kelvin() {
    let ti = TemperatureInterval { millikelvin: 26_850 };
    let tt = temperature_interval_to_thermodynamic_temperature(ti);
    assert_eq!(tt.millikelvin, 300_000);
    let back = thermodynamic_temperature_to_temperature_interval(tt);
    assert_eq!(back.millikelvin, 26_850);
}

#[test]
fn subtracting_temperatures_gives_the_signed_interval() {
    let t1 = Temperature { millikelvin: 600_000 };
    let t2 = Temperature { millikelvin: 301_500 };
    assert_eq!(subtract_two_thermodynamic_temperatures(t1, t2).millikelvin, 298_500);
    assert_eq!(subtract_two_thermodynamic_temperatures(t2, t1).millikelvin, -298_500);
}

#[test]
fn enthalpy_flow_is_the_exact_product() {
    let m = MassRate { milligram_per_second: 180_000 };
    let h = SpecificEnthalpy { millijoule_per_kilogram: 10_960_000 };
    let f = calculate_enthalpy_flow(m, h);
    assert_eq!(f.nanowatt, 180_000i128 * 10_960_000i128);
}

#[test]
fn enthalpy_next_timestep_applies_the_first_law() {
    // 100 W for 0.1 s with no flow imbalance adds exactly 10 J.
    let r = get_control_volume_enthalpy_next_timestep(
        Time { millisecond: 100 },
        EnthalpyFlow { nanowatt: 0 },
        EnthalpyFlow { nanowatt: 0 },
        Power { milliwatt: 100_000 },
        Power { milliwatt: 0 },
        Energy { femtojoule: 0 },
    );
    assert_eq!(r.femtojoule, 10_000_000_000_000_000);
    // Flow imbalance of 50 W out for 1 s removes exactly 50 J.
    let r2 = get_control_volume_enthalpy_next_timestep(
        Time { millisecond: 1000 },
        EnthalpyFlow { nanowatt: 50_000_000_000 },
        EnthalpyFlow { nanowatt: 0 },
        Power { milliwatt: 0 },
        Power { milliwatt: 0 },
        Energy { femtojoule: 60_000_000_000_000_000 },
    );
    assert_eq!(r2.femtojoule, 10_000_000_000_000_000);
}

#[test]
fn convection_heat_flux_has_magnitude_and_sign() {
    // 100 W/(m^2 K) over 1 m^2 with the surface 10 K above the fluid:
    // exactly 1000 W into the fluid.
    let h = HeatTransfer { milliwatt_per_square_metre_kelvin: 100_000 };
    let a = Area { square_millimetre: 1_000_000 };
    let hot_surface = Temperature { millikelvin: 310_000 };
    let fluid = Temperature { millikelvin: 300_000 };
    let q = calculate_convection_heat_flux_power_input(h, hot_surface, fluid, a);
    assert_eq!(q.milliwatt, 1_000_000);
    // Reversed, the fluid loses the same power.
    let q2 = calculate_convection_heat_flux_power_input(h, fluid, hot_surface, a);
    assert_eq!(q2.milliwatt, -1_000_000);
}

#[test]
fn convection_sign_survives_below_the_grid() {
    // A millikelvin of driving difference over a tiny film rounds away
    // from zero, so the sign of the difference is never lost.
    let h = HeatTransfer { milliwatt_per_square_metre_kelvin: 1 };
    let a = Area { square_millimetre: 1 };
    let warm = Temperature { millikelvin: 300_001 };
    let cool = Temperature { millikelvin: 300_000 };
    let q = calculate_convection_heat_flux_power_input(h, warm, cool, a);
    assert_eq!(q.milliwatt, 1);
    let q2 = calculate_convection_heat_flux_power_input(h, cool, warm, a);
    assert_eq!(q2.milliwatt, -1);
    let q3 = calculate_convection_heat_flux_power_input(h, cool, cool, a);
    assert_eq!(q3.milliwatt, 0);
    let q4 = obtain_power_through_single_convection_thermal_resistance(cool, warm, a, h);
    assert_eq!(q4.milliwatt, 1);
}

#[test]
fn single_convection_resistance_matches_direct_convection() {
    let h = HeatTransfer { milliwatt_per_square_metre_kelvin: 100_000 };
    let a = Area { square_millimetre: 1_000_000 };
    let source = Temperature { millikelvin: 310_000 };
    let recipient = Temperature { millikelvin: 300_000 };
    let q = obtain_power_through_single_convection_thermal_resistance(recipient, source, a, h);
    assert_eq!(q.milliwatt, 1_000_000);
}

#[test]
fn wall_resistance_heat_flow_matches_fourier_law() {
    // 1 W/(m K), 1 m^2, 10 mm wall: R = 0.01 K/W; 20 K across it: 2000 W.
    let k = ThermalConductivity { microwatt_per_metre_kelvin: 1_000_000 };
    let a = Area { square_millimetre: 1_000_000 };
    let l = Length { millimetre: 10 };
    let source = Temperature { millikelvin: 320_000 };
    let recipient = Temperature { millikelvin: 300_000 };
    let q = obtain_power_through_wall_thermal_resistance(recipient, source, k, a, l);
    assert_eq!(q.milliwatt, 2_000_000);
    // Heat flows the other way when the recipient is hotter.
    let q2 = obtain_power_through_wall_thermal_resistance(source, recipient, k, a, l);
    assert_eq!(q2.milliwatt, -2_000_000);
}

#[test]
fn two_equal_layers_halve_the_heat_flow() {
    let k = ThermalConductivity { microwatt_per_metre_kelvin: 1_000_000 };
    let a = Area { square_millimetre: 1_000_000 };
    let l = Length { millimetre: 10 };
    let source = Temperature { millikelvin: 320_000 };
    let recipient = Temperature { millikelvin: 300_000 };
    let q = obtain_power_through_two_layer_wall_thermal_resistance(
        recipient, source, k, k, a, a, l, l,
    );
    assert_eq!(q.milliwatt, 1_000_000);
}

#[test]
fn generic_control_volume_enthalpy_update() {
    // 1 g of fluid at 10.96 kJ/kg gains 10 J over 0.1 s at 100 W:
    // specific enthalpy rises by exactly 10 kJ/kg.
    let r = ControlVolumeEntity::calculate_specific_enthalpy_at_next_timestep(
        SpecificEnthalpy { millijoule_per_kilogram: 10_960_000 },
        Mass { nanogram: 1_000_000_000 },
        Time { millisecond: 100 },
        EnthalpyFlow { nanowatt: 0 },
        EnthalpyFlow { nanowatt: 0 },
        Power { milliwatt: 100_000 },
        Power { milliwatt: 0 },
    );
    assert_eq!(r.unwrap().millijoule_per_kilogram, 20_960_000);
    // Draining far more energy than the volume holds is refused.
    let r2 = ControlVolumeEntity::calculate_specific_enthalpy_at_next_timestep(
        SpecificEnthalpy { millijoule_per_kilogram: 10_960_000 },
        Mass { nanogram: 1_000_000_000 },
        Time { millisecond: 100 },
        EnthalpyFlow { nanowatt: 0 },
        EnthalpyFlow { nanowatt: 0 },
        Power { milliwatt: -1_000_000_000 },
        Power { milliwatt: 0 },
    );
    assert_eq!(r2.unwrap_err(), CalculationError::OutOfRange);
}
