use heat_transfer_rust::units::{Temperature, HeatTransfer, Area};
use heat_transfer_rust::errors::CalculationError;
use heat_transfer_rust::common_functions::{
    log_mean_temperature_difference, calculate_overall_heat_flux_power_input,
};

#[test]
fn lmtd_matches_the_reference_value() {
    // Cold fluid at 21 C and 20 C, hot fluid at 48 C and 50 C: the
    // differences are 27 K and 30 K, and the log mean is
    // (27 - 30) / (ln 27 - ln 30) = 28.47 K.
    let cold_a = Temperature { millikelvin: 294_150 };
    let cold_b = Temperature { millikelvin: 293_150 };
    let hot_a = Temperature { millikelvin: 321_150 };
    let hot_b = Temperature { millikelvin: 323_150 };
    let r = log_mean_temperature_difference(cold_a, cold_b, hot_a, hot_b).unwrap();
    let expected = 28_473.66_f64;
    let got = r.millikelvin as f64;
    assert!(
        (got - expected).abs() <= 0.001 * expected,
        "expected about {} mK, got {} mK",
        expected,
        got
    );
    // It lies in the geometric-arithmetic mean bracket of the two
    // differences (sqrt(27 * 30) = 28.460 K up to (27 + 30)/2 = 28.5 K),
    // and in particular between the differences themselves.
    assert!(28_460 <= r.millikelvin && r.millikelvin <= 28_500);
    assert!(27_000 <= r.millikelvin && r.millikelvin <= 30_000);
}

#[test]
fn lmtd_is_refused_when_a_hot_sample_is_colder() {
    let cold = Temperature { millikelvin: 320_000 };
    let hot = Temperature { millikelvin: 310_000 };
    let fine = Temperature { millikelvin: 330_000 };
    // Station A inverted.
    let r = log_mean_temperature_difference(cold, cold, hot, fine);
    assert_eq!(r.unwrap_err(), CalculationError::PhysicallyInvalidInput);
    // Station B inverted.
    let r2 = log_mean_temperature_difference(cold, cold, fine, hot);
    assert_eq!(r2.unwrap_err(), CalculationError::PhysicallyInvalidInput);
    // Equal temperatures leave nothing to take a logarithm of.
    let r3 = log_mean_temperature_difference(cold, cold, cold, fine);
    assert_eq!(r3.unwrap_err(), CalculationError::PhysicallyInvalidInput);
}

#[test]
fn lmtd_sign_matches_the_average_difference() {
    // Whenever the call succeeds both differences are positive, so the
    // result is positive exactly when the hot average exceeds the cold
    // average.
    let cases = [
        (293_150i64, 293_150i64, 303_150i64, 313_150i64),
        (300_000, 310_000, 301_000, 311_000),
        (350_000, 293_150, 360_000, 320_000),
    ];
    for (ca, cb, ha, hb) in cases {
        let r = log_mean_temperature_difference(
            Temperature { millikelvin: ca },
            Temperature { millikelvin: cb },
            Temperature { millikelvin: ha },
            Temperature { millikelvin: hb },
        )
        .unwrap();
        assert!(r.millikelvin > 0);
        assert!(ha + hb > ca + cb);
    }
}

#[test]
fn lmtd_with_equal_differences_returns_them_exactly() {
    let cold_a = Temperature { millikelvin: 300_000 };
    let cold_b = Temperature { millikelvin: 310_000 };
    let hot_a = Temperature { millikelvin: 315_000 };
    let hot_b = Temperature { millikelvin: 325_000 };
    let r = log_mean_temperature_difference(cold_a, cold_b, hot_a, hot_b).unwrap();
    assert_eq!(r.millikelvin, 15_000);
}

#[test]
fn overall_heat_flux_with_uniform_fluid_temperature() {
    // With equal inlet and outlet temperatures the plain difference to the
    // surroundings drives the flux: 100 W/(m^2 K), 1 m^2, 10 K -> 1000 W.
    let u = HeatTransfer { milliwatt_per_square_metre_kelvin: 100_000 };
    let a = Area { square_millimetre: 1_000_000 };
    let surr = Temperature { millikelvin: 310_000 };
    let fluid = Temperature { millikelvin: 300_000 };
    let q = calculate_overall_heat_flux_power_input(u, surr, fluid, fluid, a).unwrap();
    assert_eq!(q.milliwatt, 1_000_000);
}

#[test]
fn overall_heat_flux_uses_the_log_mean_difference() {
    // Fluid running from 321.15 K to 323.15 K over surroundings at
    // 293.65 K: differences 27.5 K and 29.5 K, log mean about 28.49 K;
    // with 100 W/(m^2 K) and 1 m^2 the flux is about 2849 W.
    let u = HeatTransfer { milliwatt_per_square_metre_kelvin: 100_000 };
    let a = Area { square_millimetre: 1_000_000 };
    let surr = Temperature { millikelvin: 293_650 };
    let t_in = Temperature { millikelvin: 321_150 };
    let t_out = Temperature { millikelvin: 323_150 };
    let q = calculate_overall_heat_flux_power_input(u, surr, t_in, t_out, a).unwrap();
    let expected = 2_849_000.0_f64;
    let got = q.milliwatt as f64;
    assert!((got - expected).abs() <= 0.01 * expected);
}

#[test]
fn overall_heat_flux_is_refused_for_a_fluid_below_the_surroundings() {
    let u = HeatTransfer { milliwatt_per_square_metre_kelvin: 100_000 };
    let a = Area { square_millimetre: 1_000_000 };
    let surr = Temperature { millikelvin: 330_000 };
    let t_in = Temperature { millikelvin: 300_000 };
    let t_out = Temperature { millikelvin: 305_000 };
    let r = calculate_overall_heat_flux_power_input(u, surr, t_in, t_out, a);
    assert_eq!(r.unwrap_err(), CalculationError::PhysicallyInvalidInput);
}
