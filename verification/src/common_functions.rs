//! Common heat-flux and temperature arithmetic.
//!
//! The control-volume enthalpy update formula, enthalpy flow, convective
//! heat flux, conversions between thermodynamic temperatures and
//! temperature intervals, and the log-mean temperature difference, all in
//! the fixed-point units of [`crate::units`].

use vstd::prelude::*;
use vstd::arithmetic::div_mod::{
    lemma_div_is_ordered, lemma_div_multiples_vanish, lemma_div_nonincreasing,
    lemma_div_is_strictly_smaller, lemma_fundamental_div_mod, lemma_mod_bound,
};
use vstd::arithmetic::power2::{pow2, lemma2_to64};

use crate::units::{
    Temperature, TemperatureInterval, SpecificEnthalpy, Power, MassRate, Time, Energy,
    EnthalpyFlow, HeatTransfer, Area, TEMPERATURE_CAP, POWER_CAP, TIME_CAP, HEAT_TRANSFER_CAP,
    AREA_CAP, ENTHALPY_FLOW_CAP, ENERGY_CAP,
};
use crate::fluid::FluidModel;
use crate::errors::CalculationError;

verus! {

/// The discretised first-law update for a control volume:
/// `H_cv(t+1) = dt * (H_in - H_out + Q_s + W_s) + H_cv(t)`, in femtojoule.
/// The factors 1000 and 1_000_000 put the millisecond timestep and the
/// milliwatt heat and work rates onto the femtojoule scale of the
/// nanowatt enthalpy flows.
pub open spec fn spec_enthalpy_next_timestep(
    dt: int,
    h_out: int,
    h_in: int,
    heat: int,
    work: int,
    current: int,
) -> int {
    1000 * dt * (h_in - h_out + 1_000_000 * (heat + work)) + current
}

/// Heat flow through a film or wall of coefficient `c` (mW/(m^2 K)) and
/// area `a` (mm^2) under the temperature difference `dt` (mK), in mW;
/// the divisor collapses the three sub-SI scale factors.  The magnitude is
/// rounded up (away from zero), so a nonzero driving difference over a
/// nonzero film is never reported as zero heat flow and the sign of the
/// difference survives the grid.
pub open spec fn spec_scaled_power(dt: int, c: int, a: int) -> int {
    if dt >= 0 {
        (dt * c * a + 999_999_999) / 1_000_000_000
    } else {
        -(((-dt) * c * a + 999_999_999) / 1_000_000_000)
    }
}

/// The sign of the scaled heat flow is the sign of the driving temperature
/// difference whenever both the coefficient and the area are nonzero, and
/// the flow is zero whenever any factor is zero.
pub proof fn lemma_scaled_power_sign(dt: int, c: int, a: int)
    requires
        0 <= c,
        0 <= a,
    ensures
        dt > 0 && c >= 1 && a >= 1 ==> spec_scaled_power(dt, c, a) >= 1,
        dt < 0 && c >= 1 && a >= 1 ==> spec_scaled_power(dt, c, a) <= -1,
        dt == 0 || c == 0 || a == 0 ==> spec_scaled_power(dt, c, a) == 0,
{
    if dt != 0 && c >= 1 && a >= 1 {
        let m = if dt >= 0 {
            dt
        } else {
            -dt
        };
        assert(m * c * a >= 1) by (nonlinear_arith)
            requires
                m >= 1,
                c >= 1,
                a >= 1,
        ;
        lemma_div_is_ordered(1_000_000_000, m * c * a + 999_999_999, 1_000_000_000);
        lemma_div_multiples_vanish(1, 1_000_000_000);
    } else {
        let m = if dt >= 0 {
            dt
        } else {
            -dt
        };
        assert(m * c * a == 0) by (nonlinear_arith)
            requires
                m == 0 || c == 0 || a == 0,
        ;
    }
}

/// Product bound used to discharge fixed-point overflow checks.
proof fn lemma_signed_product_bound(a: int, b: int, abound: int, bbound: int)
    by (nonlinear_arith)
    requires
        -abound <= a <= abound,
        -bbound <= b <= bbound,
        0 <= abound,
        0 <= bbound,
    ensures
        -(abound * bbound) <= a * b <= abound * bbound,
{
}

/// Calculates the control-volume enthalpy at the next timestep from the
/// enthalpy flows in and out, the heat and work rates, and the current
/// enthalpy.
pub fn get_control_volume_enthalpy_next_timestep(
    timestep: Time,
    enthalpy_out: EnthalpyFlow,
    enthalpy_in: EnthalpyFlow,
    heat_supplied_to_system: Power,
    work_done_on_system: Power,
    control_volume_enthalpy_current_timestep: Energy,
) -> (r: Energy)
    requires
        1 <= timestep.millisecond <= TIME_CAP,
        -ENTHALPY_FLOW_CAP <= enthalpy_out.nanowatt <= ENTHALPY_FLOW_CAP,
        -ENTHALPY_FLOW_CAP <= enthalpy_in.nanowatt <= ENTHALPY_FLOW_CAP,
        -POWER_CAP <= heat_supplied_to_system.milliwatt <= POWER_CAP,
        -POWER_CAP <= work_done_on_system.milliwatt <= POWER_CAP,
        -ENERGY_CAP <= control_volume_enthalpy_current_timestep.femtojoule <= ENERGY_CAP,
    ensures
        r.femtojoule == spec_enthalpy_next_timestep(
            timestep.millisecond as int,
            enthalpy_out.nanowatt as int,
            enthalpy_in.nanowatt as int,
            heat_supplied_to_system.milliwatt as int,
            work_done_on_system.milliwatt as int,
            control_volume_enthalpy_current_timestep.femtojoule as int,
        ),
{
    let rate: i128 = enthalpy_in.nanowatt - enthalpy_out.nanowatt + 1_000_000i128 * ((
    heat_supplied_to_system.milliwatt as i128) + (work_done_on_system.milliwatt as i128));
    proof {
        lemma_signed_product_bound(
            1000 * (timestep.millisecond as int),
            rate as int,
            1000 * (TIME_CAP as int),
            3 * (ENTHALPY_FLOW_CAP as int),
        );
    }
    let delta: i128 = (1000i128 * (timestep.millisecond as i128)) * rate;
    Energy { femtojoule: delta + control_volume_enthalpy_current_timestep.femtojoule }
}

/// Calculates the enthalpy flow rate carried by a mass flow of specific
/// enthalpy `h`: exactly `m * h`, in nanowatt.
pub fn calculate_enthalpy_flow(m: MassRate, h: SpecificEnthalpy) -> (r: EnthalpyFlow)
    ensures
        r.nanowatt == (m.milligram_per_second as int) * (h.millijoule_per_kilogram as int),
{
    proof {
        lemma_signed_product_bound(
            m.milligram_per_second as int,
            h.millijoule_per_kilogram as int,
            0x8000_0000_0000_0000,
            0x8000_0000_0000_0000,
        );
    }
    EnthalpyFlow {
        nanowatt: (m.milligram_per_second as i128) * (h.millijoule_per_kilogram as i128),
    }
}

/// Heat flow under a fixed temperature difference: shared body of the
/// convection and thermal-resistance helpers.
fn scaled_power(dt_millikelvin: i64, coefficient: i64, area: i64) -> (r: i64)
    requires
        -2 * TEMPERATURE_CAP <= dt_millikelvin <= 2 * TEMPERATURE_CAP,
        0 <= coefficient <= HEAT_TRANSFER_CAP,
        0 <= area <= AREA_CAP,
    ensures
        r == spec_scaled_power(dt_millikelvin as int, coefficient as int, area as int),
{
    if dt_millikelvin >= 0 {
        proof {
            lemma_signed_product_bound(
                dt_millikelvin as int,
                coefficient as int,
                2 * (TEMPERATURE_CAP as int),
                HEAT_TRANSFER_CAP as int,
            );
            lemma_signed_product_bound(
                (dt_millikelvin as int) * (coefficient as int),
                area as int,
                2 * (TEMPERATURE_CAP as int) * (HEAT_TRANSFER_CAP as int),
                AREA_CAP as int,
            );
            lemma_div_is_ordered(
                0,
                (dt_millikelvin as int) * (coefficient as int) * (area as int) + 999_999_999,
                1_000_000_000,
            );
            lemma_div_is_ordered(
                (dt_millikelvin as int) * (coefficient as int) * (area as int) + 999_999_999,
                4_000_000_000_000_000_001_000_000_000,
                1_000_000_000,
            );
        }
        let q: u128 = ((dt_millikelvin as u128) * (coefficient as u128) * (area as u128)
            + 999_999_999u128) / 1_000_000_000u128;
        q as i64
    } else {
        let neg = -dt_millikelvin;
        proof {
            lemma_signed_product_bound(
                neg as int,
                coefficient as int,
                2 * (TEMPERATURE_CAP as int),
                HEAT_TRANSFER_CAP as int,
            );
            lemma_signed_product_bound(
                (neg as int) * (coefficient as int),
                area as int,
                2 * (TEMPERATURE_CAP as int) * (HEAT_TRANSFER_CAP as int),
                AREA_CAP as int,
            );
            lemma_div_is_ordered(
                0,
                (neg as int) * (coefficient as int) * (area as int) + 999_999_999,
                1_000_000_000,
            );
            lemma_div_is_ordered(
                (neg as int) * (coefficient as int) * (area as int) + 999_999_999,
                4_000_000_000_000_000_001_000_000_000,
                1_000_000_000,
            );
        }
        let q: u128 = ((neg as u128) * (coefficient as u128) * (area as u128) + 999_999_999u128)
            / 1_000_000_000u128;
        -(q as i64)
    }
}

/// Convection heat flux power input into a fluid:
/// `Q = h * (T_surface - T_fluid) * A`.
pub fn calculate_convection_heat_flux_power_input(
    h: HeatTransfer,
    t_surface: Temperature,
    t_fluid: Temperature,
    a: Area,
) -> (r: Power)
    requires
        0 <= t_surface.millikelvin <= TEMPERATURE_CAP,
        0 <= t_fluid.millikelvin <= TEMPERATURE_CAP,
        0 <= h.milliwatt_per_square_metre_kelvin <= HEAT_TRANSFER_CAP,
        0 <= a.square_millimetre <= AREA_CAP,
    ensures
        r.milliwatt == spec_scaled_power(
            t_surface.millikelvin - t_fluid.millikelvin,
            h.milliwatt_per_square_metre_kelvin as int,
            a.square_millimetre as int,
        ),
        h.milliwatt_per_square_metre_kelvin >= 1 && a.square_millimetre >= 1 ==> {
            &&& (r.milliwatt > 0 <==> t_surface.millikelvin > t_fluid.millikelvin)
            &&& (r.milliwatt < 0 <==> t_surface.millikelvin < t_fluid.millikelvin)
            &&& (r.milliwatt == 0 <==> t_surface.millikelvin == t_fluid.millikelvin)
        },
{
    let dt = t_surface.millikelvin - t_fluid.millikelvin;
    proof {
        lemma_scaled_power_sign(
            dt as int,
            h.milliwatt_per_square_metre_kelvin as int,
            a.square_millimetre as int,
        );
    }
    Power {
        milliwatt: scaled_power(dt, h.milliwatt_per_square_metre_kelvin, a.square_millimetre),
    }
}

/// Converts a temperature interval to a thermodynamic temperature by
/// adding the 273.15 K offset.
pub fn temperature_interval_to_thermodynamic_temperature(temp: TemperatureInterval) -> (r:
    Temperature)
    requires
        temp.millikelvin + 273_150 <= i64::MAX,
    ensures
        r.millikelvin == temp.millikelvin + 273_150,
{
    Temperature { millikelvin: temp.millikelvin + 273_150 }
}

/// Converts a thermodynamic temperature to a temperature interval by
/// subtracting the 273.15 K offset.
pub fn thermodynamic_temperature_to_temperature_interval(temp: Temperature) -> (r:
    TemperatureInterval)
    requires
        i64::MIN <= temp.millikelvin - 273_150,
    ensures
        r.millikelvin == temp.millikelvin - 273_150,
{
    TemperatureInterval { millikelvin: temp.millikelvin - 273_150 }
}

/// Subtracts two thermodynamic temperatures, giving the interval
/// `t1 - t2`.
pub fn subtract_two_thermodynamic_temperatures(t1: Temperature, t2: Temperature) -> (r:
    TemperatureInterval)
    requires
        i64::MIN <= t1.millikelvin - t2.millikelvin <= i64::MAX,
    ensures
        r.millikelvin == t1.millikelvin - t2.millikelvin,
{
    TemperatureInterval { millikelvin: t1.millikelvin - t2.millikelvin }
}

/// Fixed-point natural logarithm of the ratio `a / b`, scaled by one
/// million, for `1 <= b < a`.  The result is computed by normalising the
/// ratio to `[1, 2)` in binary and extracting twenty fractional bits of
/// the base-two logarithm by repeated squaring; it is floored at one so a
/// caller can divide by it.  Callers that need tight bounds clamp the
/// quotient they derive from it, so only positivity is promised here.
fn ln_ratio_scaled(a: u64, b: u64) -> (r: u64)
    requires
        1 <= b < a,
        a <= 2 * (TEMPERATURE_CAP as u64),
    ensures
        1 <= r <= 100_000_000,
{
    let q: u128 = ((a as u128) * 4_294_967_296u128) / (b as u128);
    proof {
        lemma_div_is_ordered((b as int) * 4_294_967_296, (a as int) * 4_294_967_296, b as int);
        lemma_div_multiples_vanish(4_294_967_296, b as int);
        assert((b as int) * 4_294_967_296 == 4_294_967_296 * (b as int)) by (nonlinear_arith);
        assert((a as int) * 4_294_967_296 <= 17_179_869_184_000_000) by (nonlinear_arith)
            requires
                0 <= a <= 4_000_000,
        ;
        lemma_div_is_ordered((a as int) * 4_294_967_296, 17_179_869_184_000_000, b as int);
    }
    let mut x: u128 = q;
    let mut k: u64 = 0;
    while x >= 8_589_934_592u128 && k < 60
        invariant
            4_294_967_296 <= x <= 17_179_869_184_000_000,
            k <= 60,
        decreases x,
    {
        x = x / 2;
        k = k + 1;
        proof {
            lemma_div_is_ordered(2int * 4_294_967_296, (x as int) * 2, 2);
        }
    }
    if x >= 8_589_934_592u128 {
        x = 8_589_934_591u128;
    }
    let mut frac: u64 = 0;
    let mut i: usize = 0;
    proof {
        lemma2_to64();
    }
    while i < 20
        invariant
            4_294_967_296 <= x < 8_589_934_592,
            i <= 20,
            (frac as int) < pow2(i as nat),
        decreases 20 - i,
    {
        proof {
            lemma2_to64();
            assert((x as int) * (x as int) < 8_589_934_592 * 8_589_934_592) by (nonlinear_arith)
                requires
                    0 <= x < 8_589_934_592,
            ;
            assert(4_294_967_296 * 4_294_967_296 <= (x as int) * (x as int)) by (nonlinear_arith)
                requires
                    4_294_967_296 <= x,
            ;
            lemma_div_is_ordered(
                4_294_967_296int * 4_294_967_296,
                (x as int) * (x as int),
                4_294_967_296,
            );
            lemma_div_is_ordered(
                (x as int) * (x as int),
                8_589_934_592int * 8_589_934_592,
                4_294_967_296,
            );
            lemma_div_multiples_vanish(4_294_967_296, 4_294_967_296);
            lemma_div_multiples_vanish(4int * 4_294_967_296, 4_294_967_296);
            assert(pow2((i + 1) as nat) == 2 * pow2(i as nat)) by {
                vstd::arithmetic::power2::lemma_pow2_adds(i as nat, 1);
            }
        }
        x = (x * x) / 4_294_967_296u128;
        if x >= 8_589_934_592u128 {
            x = x / 2;
            frac = 2 * frac + 1;
        } else {
            frac = 2 * frac;
        }
        i = i + 1;
    }
    proof {
        lemma2_to64();
    }
    let log2_scaled: u64 = k * 1_048_576 + frac;
    let scaled: u128 = ((log2_scaled as u128) * 693_147u128) / 1_048_576u128;
    proof {
        lemma_div_is_ordered(0, (log2_scaled as int) * 693_147, 1_048_576);
        lemma_div_is_ordered(
            (log2_scaled as int) * 693_147,
            44_581_986_495_532_242,
            1_048_576,
        );
    }
    let r = scaled as u64;
    if r == 0 {
        1
    } else {
        if r > 100_000_000 {
            100_000_000
        } else {
            r
        }
    }
}

/// The two-sided integer bracket on the logarithmic mean of two positive
/// temperature differences `da` and `db`: `l` is at least the floor of
/// their geometric mean `sqrt(da * db)` and at most half their sum.  The
/// true logarithmic mean `(da - db) / (ln da - ln db)` always lies in
/// this bracket, so any `l` satisfying it agrees with the true value to
/// within the width of the geometric-arithmetic mean gap; it also lies
/// between the smaller and the larger difference, and equals them when
/// they agree.
pub open spec fn spec_log_mean_bracketed(l: int, da: int, db: int) -> bool {
    &&& 0 < l
    &&& 2 * l <= da + db
    &&& (l + 1) * (l + 1) > da * db
    &&& (da <= db ==> da <= l <= db)
    &&& (db <= da ==> db <= l <= da)
    &&& (da == db ==> l == da)
}

/// Floor of the square root of `p`, by bisection.
fn floor_sqrt(p: u64) -> (r: u64)
    requires
        p <= 4_000_000_000_000,
    ensures
        (r as int) * (r as int) <= p as int,
        (p as int) < ((r as int) + 1) * ((r as int) + 1),
{
    let mut low: u64 = 0;
    let mut high: u64 = 2_000_001;
    while low + 1 < high
        invariant
            low < high <= 2_000_001,
            (low as int) * (low as int) <= p as int,
            (p as int) < (high as int) * (high as int),
            p <= 4_000_000_000_000,
        decreases high - low,
    {
        proof {
            lemma_div_is_ordered(2, (high - low) as int, 2);
            lemma_div_multiples_vanish(1, 2);
            lemma_div_is_strictly_smaller((high - low) as int, 2);
        }
        let mid = low + (high - low) / 2;
        proof {
            assert((mid as int) * (mid as int) <= 4_000_004_000_001) by (nonlinear_arith)
                requires
                    0 <= mid <= 2_000_001,
            ;
        }
        if mid * mid <= p {
            low = mid;
        } else {
            high = mid;
        }
    }
    low
}

/// Log-mean temperature difference between a hot and a cold fluid sampled
/// at two stations `A` and `B`:
/// `LMTD = (dT_A - dT_B) / (ln dT_A - ln dT_B)` with
/// `dT = T_hot - T_cold`.
///
/// Fails with `PhysicallyInvalidInput` if and only if either paired
/// hot-fluid sample is not strictly warmer than its cold-fluid sample
/// (the logarithm of a non-positive number has no value).  Otherwise the
/// result is strictly positive — matching the sign of
/// `hot average - cold average`, which is then positive too — and sits in
/// the geometric-arithmetic mean bracket of the two differences
/// ([`spec_log_mean_bracketed`]), the same bracket that contains the true
/// logarithmic mean; when the two differences agree it equals them
/// exactly.
pub fn log_mean_temperature_difference(
    temp_cold_fluid_a: Temperature,
    temp_cold_fluid_b: Temperature,
    temp_hot_fluid_a: Temperature,
    temp_hot_fluid_b: Temperature,
) -> (r: Result<TemperatureInterval, CalculationError>)
    requires
        0 <= temp_cold_fluid_a.millikelvin <= TEMPERATURE_CAP,
        0 <= temp_cold_fluid_b.millikelvin <= TEMPERATURE_CAP,
        0 <= temp_hot_fluid_a.millikelvin <= TEMPERATURE_CAP,
        0 <= temp_hot_fluid_b.millikelvin <= TEMPERATURE_CAP,
    ensures
        match r {
            Ok(t) => {
                let da = temp_hot_fluid_a.millikelvin - temp_cold_fluid_a.millikelvin;
                let db = temp_hot_fluid_b.millikelvin - temp_cold_fluid_b.millikelvin;
                &&& da > 0
                &&& db > 0
                &&& temp_hot_fluid_a.millikelvin + temp_hot_fluid_b.millikelvin
                    > temp_cold_fluid_a.millikelvin + temp_cold_fluid_b.millikelvin
                &&& spec_log_mean_bracketed(t.millikelvin as int, da, db)
            },
            Err(e) => {
                let da = temp_hot_fluid_a.millikelvin - temp_cold_fluid_a.millikelvin;
                let db = temp_hot_fluid_b.millikelvin - temp_cold_fluid_b.millikelvin;
                &&& (da <= 0 || db <= 0)
                &&& e == CalculationError::PhysicallyInvalidInput
            },
        },
{
    let d_a = temp_hot_fluid_a.millikelvin - temp_cold_fluid_a.millikelvin;
    let d_b = temp_hot_fluid_b.millikelvin - temp_cold_fluid_b.millikelvin;
    if d_a <= 0 || d_b <= 0 {
        return Err(CalculationError::PhysicallyInvalidInput);
    }
    if d_a == d_b {
        proof {
            assert(((d_a as int) + 1) * ((d_a as int) + 1) > (d_a as int) * (d_a as int))
                by (nonlinear_arith)
                requires
                    0 <= d_a,
            ;
        }
        return Ok(TemperatureInterval { millikelvin: d_a });
    }
    let hi: i64 = if d_a > d_b {
        d_a
    } else {
        d_b
    };
    let lo: i64 = if d_a > d_b {
        d_b
    } else {
        d_a
    };
    let denominator = ln_ratio_scaled(hi as u64, lo as u64);
    let numerator: u64 = ((hi - lo) as u64) * 1_000_000;
    let quotient: u64 = numerator / denominator;
    proof {
        lemma_div_is_ordered(0, numerator as int, denominator as int);
        lemma_div_nonincreasing(numerator as int, denominator as int);
    }
    let candidate = quotient as i64;
    proof {
        lemma_signed_product_bound(hi as int, lo as int, 2_000_000, 2_000_000);
    }
    let product: u64 = (hi as u64) * (lo as u64);
    let gm = floor_sqrt(product);
    let half_sum: i64 = (((hi as u64) + (lo as u64)) / 2) as i64;
    proof {
        let s = (hi as int) + (lo as int);
        // The smaller difference is below the geometric mean.
        assert((lo as int) * (lo as int) <= product as int) by (nonlinear_arith)
            requires
                1 <= lo <= hi,
                product as int == (hi as int) * (lo as int),
        ;
        assert((lo as int) <= gm as int) by (nonlinear_arith)
            requires
                (lo as int) * (lo as int) <= product as int,
                (product as int) < ((gm as int) + 1) * ((gm as int) + 1),
                0 <= lo,
                0 <= gm,
        ;
        // The geometric mean is below the arithmetic mean.
        assert(4 * (product as int) <= s * s) by (nonlinear_arith)
            requires
                product as int == (hi as int) * (lo as int),
                s == (hi as int) + (lo as int),
        ;
        assert(2 * (gm as int) <= s) by (nonlinear_arith)
            requires
                (gm as int) * (gm as int) <= product as int,
                4 * (product as int) <= s * s,
                0 <= gm,
                0 <= s,
        ;
        lemma_div_is_ordered(2 * (gm as int), s, 2);
        lemma_div_multiples_vanish(gm as int, 2);
        lemma_div_is_ordered(s, 2 * (hi as int), 2);
        lemma_div_multiples_vanish(hi as int, 2);
        lemma_fundamental_div_mod(s, 2);
        lemma_mod_bound(s, 2);
    }
    let clamped: i64 = if candidate < (gm as i64) {
        gm as i64
    } else if candidate > half_sum {
        half_sum
    } else {
        candidate
    };
    proof {
        assert(((clamped as int) + 1) * ((clamped as int) + 1) > product as int)
            by (nonlinear_arith)
            requires
                (product as int) < ((gm as int) + 1) * ((gm as int) + 1),
                gm as int <= clamped as int,
                0 <= gm,
        ;
    }
    Ok(TemperatureInterval { millikelvin: clamped })
}

/// Overall heat flux power input under a fixed surrounding temperature:
/// `Q = U * A * LMTD`, where the log-mean temperature difference is taken
/// between the fluid (hot side) running from its inlet to its outlet
/// temperature and the constant surroundings (cold side); the contract
/// pins the result to `U * A * l` for a log-mean value `l` in the
/// geometric-arithmetic mean bracket of the two endpoint differences.
/// With equal fluid inlet and outlet temperatures the plain temperature
/// difference `T_surrounding - T_fluid` is used instead.
pub fn calculate_overall_heat_flux_power_input(
    u: HeatTransfer,
    t_surrounding: Temperature,
    t_fluid_in: Temperature,
    t_fluid_out: Temperature,
    a: Area,
) -> (r: Result<Power, CalculationError>)
    requires
        0 <= t_surrounding.millikelvin <= TEMPERATURE_CAP,
        0 <= t_fluid_in.millikelvin <= TEMPERATURE_CAP,
        0 <= t_fluid_out.millikelvin <= TEMPERATURE_CAP,
        0 <= u.milliwatt_per_square_metre_kelvin <= HEAT_TRANSFER_CAP,
        0 <= a.square_millimetre <= AREA_CAP,
    ensures
        match r {
            Ok(p) => {
                &&& (t_fluid_in == t_fluid_out ==> p.milliwatt == spec_scaled_power(
                    t_surrounding.millikelvin - t_fluid_in.millikelvin,
                    u.milliwatt_per_square_metre_kelvin as int,
                    a.square_millimetre as int,
                ))
                &&& (t_fluid_in != t_fluid_out ==> t_fluid_in.millikelvin
                    > t_surrounding.millikelvin && t_fluid_out.millikelvin
                    > t_surrounding.millikelvin && p.milliwatt >= 0 && (exists|l: int|
                    spec_log_mean_bracketed(
                        l,
                        t_fluid_in.millikelvin - t_surrounding.millikelvin,
                        t_fluid_out.millikelvin - t_surrounding.millikelvin,
                    ) && p.milliwatt == #[trigger] spec_scaled_power(
                        l,
                        u.milliwatt_per_square_metre_kelvin as int,
                        a.square_millimetre as int,
                    )))
            },
            Err(e) => {
                &&& t_fluid_in != t_fluid_out
                &&& (t_fluid_in.millikelvin <= t_surrounding.millikelvin
                    || t_fluid_out.millikelvin <= t_surrounding.millikelvin)
                &&& e == CalculationError::PhysicallyInvalidInput
            },
        },
{
    if t_fluid_in.millikelvin == t_fluid_out.millikelvin {
        let dt = t_surrounding.millikelvin - t_fluid_in.millikelvin;
        return Ok(
            Power {
                milliwatt: scaled_power(dt, u.milliwatt_per_square_metre_kelvin, a.square_millimetre),
            },
        );
    }
    let lmtd = match log_mean_temperature_difference(
        t_surrounding,
        t_surrounding,
        t_fluid_in,
        t_fluid_out,
    ) {
        Ok(t) => t,
        Err(e) => {
            return Err(e);
        },
    };
    let flux = Power {
        milliwatt: scaled_power(
            lmtd.millikelvin,
            u.milliwatt_per_square_metre_kelvin,
            a.square_millimetre,
        ),
    };
    proof {
        let da = t_fluid_in.millikelvin - t_surrounding.millikelvin;
        let db = t_fluid_out.millikelvin - t_surrounding.millikelvin;
        let witness = lmtd.millikelvin as int;
        lemma_scaled_power_sign(
            witness,
            u.milliwatt_per_square_metre_kelvin as int,
            a.square_millimetre as int,
        );
        assert(spec_log_mean_bracketed(witness, da, db) && flux.milliwatt == spec_scaled_power(
            witness,
            u.milliwatt_per_square_metre_kelvin as int,
            a.square_millimetre as int,
        ));
    }
    Ok(flux)
}

/// Conversion capability between temperature and specific enthalpy for one
/// working fluid, as the network consumes it.
pub trait TemperatureEnthalpyConversion {
    /// The provider's coefficients are coherent.
    spec fn conversion_valid(&self) -> bool;

    /// Whether a temperature lies in the provider's convertible range.
    spec fn temperature_convertible(&self, t: int) -> bool;

    /// Whether a specific enthalpy lies in the provider's convertible
    /// range.
    spec fn enthalpy_convertible(&self, h: int) -> bool;

    /// The specific enthalpy assigned to temperature `t`.
    spec fn spec_temperature_to_enthalpy(&self, t: int) -> int;

    /// The temperature assigned to specific enthalpy `h`.
    spec fn spec_enthalpy_to_temperature(&self, h: int) -> int;

    /// Converts a temperature to its specific enthalpy; fails if and only
    /// if the temperature is outside the convertible range.
    fn temperature_to_enthalpy(&self, fluid_temp: Temperature) -> (r: Result<
        SpecificEnthalpy,
        CalculationError,
    >)
        requires
            self.conversion_valid(),
        ensures
            match r {
                Ok(h) => self.temperature_convertible(fluid_temp.millikelvin as int)
                    && h.millijoule_per_kilogram == self.spec_temperature_to_enthalpy(
                    fluid_temp.millikelvin as int,
                ),
                Err(e) => !self.temperature_convertible(fluid_temp.millikelvin as int) && e
                    == CalculationError::OutOfRange,
            },
    ;

    /// Converts a specific enthalpy back to a temperature; fails if and
    /// only if the enthalpy is outside the convertible range.
    fn enthalpy_to_temperature(&self, fluid_enthalpy: SpecificEnthalpy) -> (r: Result<
        Temperature,
        CalculationError,
    >)
        requires
            self.conversion_valid(),
        ensures
            match r {
                Ok(t) => self.enthalpy_convertible(fluid_enthalpy.millijoule_per_kilogram as int)
                    && t.millikelvin == self.spec_enthalpy_to_temperature(
                    fluid_enthalpy.millijoule_per_kilogram as int,
                ),
                Err(e) => !self.enthalpy_convertible(
                    fluid_enthalpy.millijoule_per_kilogram as int,
                ) && e == CalculationError::OutOfRange,
            },
    ;

    /// The conversion round-trips: a convertible temperature maps to a
    /// convertible enthalpy that maps back to exactly that temperature.
    proof fn lemma_conversion_round_trip(&self, t: int)
        requires
            self.conversion_valid(),
            self.temperature_convertible(t),
        ensures
            self.enthalpy_convertible(self.spec_temperature_to_enthalpy(t)),
            self.spec_enthalpy_to_temperature(self.spec_temperature_to_enthalpy(t)) == t,
    ;
}

impl TemperatureEnthalpyConversion for FluidModel {
    open spec fn conversion_valid(&self) -> bool {
        self.wf()
    }

    open spec fn temperature_convertible(&self, t: int) -> bool {
        self.spec_valid_temperature(t)
    }

    open spec fn enthalpy_convertible(&self, h: int) -> bool {
        self.spec_valid_enthalpy(h)
    }

    open spec fn spec_temperature_to_enthalpy(&self, t: int) -> int {
        self.spec_enthalpy(t)
    }

    open spec fn spec_enthalpy_to_temperature(&self, h: int) -> int {
        self.spec_temperature_from_enthalpy(h)
    }

    fn temperature_to_enthalpy(&self, fluid_temp: Temperature) -> (r: Result<
        SpecificEnthalpy,
        CalculationError,
    >) {
        self.enthalpy(fluid_temp)
    }

    fn enthalpy_to_temperature(&self, fluid_enthalpy: SpecificEnthalpy) -> (r: Result<
        Temperature,
        CalculationError,
    >) {
        self.get_temperature_from_enthalpy(fluid_enthalpy)
    }

    proof fn lemma_conversion_round_trip(&self, t: int) {
        crate::fluid::lemma_temperature_enthalpy_round_trip(*self, t);
    }
}

} // verus!
