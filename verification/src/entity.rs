//! The control-volume entity: one pipe-like segment of fluid.
//!
//! An entity carries its stable index, the indices of the entities feeding
//! its inlet and consuming its outlet, and the `{inlet, outlet, bulk} x
//! {old, new}` temperature and specific-enthalpy state of the explicit
//! scheme.  Old fields are authoritative at the start of a timestep, new
//! fields at the end, until [`ControlVolumeEntity::commit_timestep`]
//! promotes them.
//!
//! The per-timestep calculation sequence is the ordered protocol of
//! [`compute_current_enthalpies`](ControlVolumeEntity::compute_current_enthalpies),
//! [`advance_enthalpy`](ControlVolumeEntity::advance_enthalpy),
//! [`resolve_new_temperature`](ControlVolumeEntity::resolve_new_temperature),
//! the two new-temperature setters, and
//! [`commit_timestep`](ControlVolumeEntity::commit_timestep).  The energy
//! balance uses the outlet specific enthalpy as the pre-update basis: under
//! the well-mixed (CSTR) assumption the outflow is drawn from a perfectly
//! mixed volume, so the control volume's specific enthalpy equals its
//! outlet specific enthalpy.  This is the energy-conserving choice.

use vstd::prelude::*;
use vstd::arithmetic::div_mod::{lemma_div_is_ordered, lemma_div_multiples_vanish};

use crate::units::{
    Temperature, SpecificEnthalpy, Power, MassRate, Time, Volume, TEMPERATURE_CAP, POWER_CAP,
    MASS_RATE_CAP, TIME_CAP, VOLUME_CAP,
};
use crate::fluid::{
    FluidModel, lemma_enthalpy_to_temperature_in_range, lemma_density_positive,
    lemma_temperature_enthalpy_round_trip,
};
use crate::errors::CalculationError;

verus! {

/// Floor of the midpoint of two temperatures in millikelvin.
pub open spec fn spec_average(a: int, b: int) -> int {
    (a + b) / 2
}

/// One lumped (zero-dimensional) fluid control volume.
#[derive(Clone, Copy, Debug)]
pub struct ControlVolumeEntity {
    /// Stable identity within a network; assigned at creation.
    pub index: usize,
    /// Index of the entity whose outlet feeds this entity's inlet; `None`
    /// until connected.
    pub inlet_neighbor_index: Option<usize>,
    /// Index of the entity fed by this entity's outlet; `None` until
    /// connected.
    pub outlet_neighbor_index: Option<usize>,
    /// Inlet temperature of the last completed timestep.
    pub inlet_temp_old: Temperature,
    /// Inlet temperature of the timestep in progress.
    pub inlet_temp_new: Temperature,
    /// Outlet temperature of the last completed timestep.
    pub outlet_temp_old: Temperature,
    /// Outlet temperature of the timestep in progress.
    pub outlet_temp_new: Temperature,
    /// Bulk temperature of the last completed timestep.
    pub bulk_temp_old: Temperature,
    /// Bulk temperature of the timestep in progress.
    pub bulk_temp_new: Temperature,
    /// Inlet specific enthalpy of the last completed timestep.
    pub inlet_enthalpy_old: SpecificEnthalpy,
    /// Inlet specific enthalpy of the timestep in progress.
    pub inlet_enthalpy_new: SpecificEnthalpy,
    /// Outlet specific enthalpy of the last completed timestep.
    pub outlet_enthalpy_old: SpecificEnthalpy,
    /// Outlet specific enthalpy of the timestep in progress.
    pub outlet_enthalpy_new: SpecificEnthalpy,
    /// Bulk specific enthalpy of the last completed timestep.
    pub bulk_enthalpy_old: SpecificEnthalpy,
    /// Bulk specific enthalpy of the timestep in progress.
    pub bulk_enthalpy_new: SpecificEnthalpy,
    /// Fixed fluid volume; no thermal expansion is modeled.
    pub fluid_volume: Volume,
    /// Timestep shared across the owning network.
    pub timestep: Time,
}

impl ControlVolumeEntity {
    /// All six stored temperatures lie in the fluid's valid range.
    pub open spec fn temperatures_valid(self, f: FluidModel) -> bool {
        &&& f.spec_valid_temperature(self.inlet_temp_old.millikelvin as int)
        &&& f.spec_valid_temperature(self.inlet_temp_new.millikelvin as int)
        &&& f.spec_valid_temperature(self.outlet_temp_old.millikelvin as int)
        &&& f.spec_valid_temperature(self.outlet_temp_new.millikelvin as int)
        &&& f.spec_valid_temperature(self.bulk_temp_old.millikelvin as int)
        &&& f.spec_valid_temperature(self.bulk_temp_new.millikelvin as int)
    }

    /// All six stored specific enthalpies lie in the fluid's valid range.
    pub open spec fn enthalpies_valid(self, f: FluidModel) -> bool {
        &&& f.spec_valid_enthalpy(self.inlet_enthalpy_old.millijoule_per_kilogram as int)
        &&& f.spec_valid_enthalpy(self.inlet_enthalpy_new.millijoule_per_kilogram as int)
        &&& f.spec_valid_enthalpy(self.outlet_enthalpy_old.millijoule_per_kilogram as int)
        &&& f.spec_valid_enthalpy(self.outlet_enthalpy_new.millijoule_per_kilogram as int)
        &&& f.spec_valid_enthalpy(self.bulk_enthalpy_old.millijoule_per_kilogram as int)
        &&& f.spec_valid_enthalpy(self.bulk_enthalpy_new.millijoule_per_kilogram as int)
    }

    /// Well-formedness of an entity with respect to its fluid model.
    pub open spec fn wf(self, f: FluidModel) -> bool {
        &&& f.wf()
        &&& self.temperatures_valid(f)
        &&& self.enthalpies_valid(f)
        &&& 1 <= self.fluid_volume.cubic_millimetre <= VOLUME_CAP
        &&& 1 <= self.timestep.millisecond <= TIME_CAP
    }

    /// Bulk temperature recomputed as the midpoint of the old inlet and
    /// outlet temperatures; used only to evaluate fluid properties at a
    /// representative temperature, never as the energy-balance state.
    pub open spec fn spec_bulk_old_temperature(self) -> int {
        spec_average(
            self.inlet_temp_old.millikelvin as int,
            self.outlet_temp_old.millikelvin as int,
        )
    }

    /// The entity after
    /// [`compute_current_enthalpies`](Self::compute_current_enthalpies):
    /// bulk old temperature re-averaged and the three old specific
    /// enthalpies derived from the old temperatures.
    pub open spec fn spec_after_compute(self, f: FluidModel) -> ControlVolumeEntity {
        ControlVolumeEntity {
            bulk_temp_old: Temperature {
                millikelvin: self.spec_bulk_old_temperature() as i64,
            },
            inlet_enthalpy_old: SpecificEnthalpy {
                millijoule_per_kilogram: f.spec_enthalpy(
                    self.inlet_temp_old.millikelvin as int,
                ) as i64,
            },
            outlet_enthalpy_old: SpecificEnthalpy {
                millijoule_per_kilogram: f.spec_enthalpy(
                    self.outlet_temp_old.millikelvin as int,
                ) as i64,
            },
            bulk_enthalpy_old: SpecificEnthalpy {
                millijoule_per_kilogram: f.spec_enthalpy(
                    self.spec_bulk_old_temperature(),
                ) as i64,
            },
            ..self
        }
    }

    /// Mass of the control volume: density at the bulk old temperature
    /// times the fixed fluid volume, in nanogram.
    pub open spec fn spec_mass(self, f: FluidModel) -> int {
        f.spec_density(self.bulk_temp_old.millikelvin as int)
            * self.fluid_volume.cubic_millimetre
    }

    /// Exact total enthalpy of the control volume after the energy balance,
    /// in femtojoule:
    /// `H_new = mass * h_outlet_old
    ///          + dt * (mflow * (h_inlet_old - h_outlet_old) + Q + W)`,
    /// all in the fixed-point units (the factors 1000 and 1_000_000 convert
    /// the millisecond-milliwatt inputs onto the femtojoule scale).
    pub open spec fn spec_new_total_enthalpy(
        self,
        f: FluidModel,
        heat: int,
        work: int,
        dt: int,
        mflow: int,
    ) -> int {
        self.spec_mass(f) * (self.outlet_enthalpy_old.millijoule_per_kilogram as int) + 1000 * dt
            * (mflow * (self.inlet_enthalpy_old.millijoule_per_kilogram
                - self.outlet_enthalpy_old.millijoule_per_kilogram) + 1_000_000 * (heat + work))
    }

    /// Whether the energy balance lands inside the fluid's valid specific
    /// enthalpy range, so that the update succeeds.
    pub open spec fn spec_advance_ok(
        self,
        f: FluidModel,
        heat: int,
        work: int,
        dt: int,
        mflow: int,
    ) -> bool {
        let total = self.spec_new_total_enthalpy(f, heat, work, dt, mflow);
        0 <= total && total / self.spec_mass(f) <= f.spec_max_enthalpy()
    }

    /// The new bulk specific enthalpy: the exact total divided by the mass,
    /// rounded down to the mJ/kg grid.
    pub open spec fn spec_new_bulk_enthalpy(
        self,
        f: FluidModel,
        heat: int,
        work: int,
        dt: int,
        mflow: int,
    ) -> int {
        self.spec_new_total_enthalpy(f, heat, work, dt, mflow) / self.spec_mass(f)
    }

    /// The entity after [`commit_timestep`](Self::commit_timestep): new
    /// inlet and outlet temperatures promoted to old, and the bulk
    /// temperature reseeded with their midpoint.
    pub open spec fn spec_commit(self) -> ControlVolumeEntity {
        let seed = Temperature {
            millikelvin: spec_average(
                self.inlet_temp_new.millikelvin as int,
                self.outlet_temp_new.millikelvin as int,
            ) as i64,
        };
        ControlVolumeEntity {
            inlet_temp_old: self.inlet_temp_new,
            outlet_temp_old: self.outlet_temp_new,
            bulk_temp_old: seed,
            bulk_temp_new: seed,
            ..self
        }
    }
}

/// Committing a second time without an intervening calculation changes
/// nothing: after one commit the old temperatures already equal the new
/// ones, and the reseeded bulk midpoint is unchanged.
pub proof fn lemma_commit_timestep_idempotent(e: ControlVolumeEntity)
    requires
        0 <= e.inlet_temp_new.millikelvin <= TEMPERATURE_CAP,
        0 <= e.outlet_temp_new.millikelvin <= TEMPERATURE_CAP,
    ensures
        e.spec_commit().spec_commit() == e.spec_commit(),
{
}

/// The midpoint of two temperatures in a range stays in the range.
pub proof fn lemma_average_in_range(a: int, b: int, lo: int, hi: int)
    requires
        lo <= a <= hi,
        lo <= b <= hi,
    ensures
        lo <= spec_average(a, b) <= hi,
{
    lemma_div_is_ordered(2 * lo, a + b, 2);
    lemma_div_is_ordered(a + b, 2 * hi, 2);
    lemma_div_multiples_vanish(lo, 2);
    lemma_div_multiples_vanish(hi, 2);
}

/// The first step of the protocol preserves well-formedness, and the mass
/// it fixes for the timestep is strictly positive and bounded.
pub proof fn lemma_after_compute_wf(e: ControlVolumeEntity, f: FluidModel)
    requires
        e.wf(f),
    ensures
        f.spec_valid_temperature(e.spec_bulk_old_temperature()),
        e.spec_after_compute(f).wf(f),
        e.spec_after_compute(f).spec_mass(f) >= 1,
        e.spec_after_compute(f).spec_mass(f) <= 100_000_000_000_000_000,
{
    lemma_average_in_range(
        e.inlet_temp_old.millikelvin as int,
        e.outlet_temp_old.millikelvin as int,
        f.min_temperature.millikelvin as int,
        f.max_temperature.millikelvin as int,
    );
    lemma_temperature_enthalpy_round_trip(f, e.inlet_temp_old.millikelvin as int);
    lemma_temperature_enthalpy_round_trip(f, e.outlet_temp_old.millikelvin as int);
    lemma_temperature_enthalpy_round_trip(f, e.spec_bulk_old_temperature());
    lemma_signed_product_bound(
        f.specific_heat as int,
        f.max_temperature.millikelvin - f.min_temperature.millikelvin,
        100_000,
        1_000_000,
    );
    let rho = f.spec_density(e.spec_bulk_old_temperature());
    lemma_density_positive(f, e.spec_bulk_old_temperature());
    lemma_product_at_least_one(rho, e.fluid_volume.cubic_millimetre as int);
    lemma_signed_product_bound(
        rho,
        e.fluid_volume.cubic_millimetre as int,
        100_000_000,
        VOLUME_CAP as int,
    );
}

/// When the energy balance succeeds, the new bulk specific enthalpy lies in
/// the fluid's valid range and resolves to a valid temperature.
pub proof fn lemma_new_bulk_enthalpy_valid(
    e: ControlVolumeEntity,
    f: FluidModel,
    heat: int,
    work: int,
    dt: int,
    mflow: int,
)
    requires
        e.wf(f),
        e.spec_mass(f) >= 1,
        e.spec_advance_ok(f, heat, work, dt, mflow),
    ensures
        f.spec_valid_enthalpy(e.spec_new_bulk_enthalpy(f, heat, work, dt, mflow)),
        f.spec_valid_temperature(
            f.spec_temperature_from_enthalpy(e.spec_new_bulk_enthalpy(f, heat, work, dt, mflow)),
        ),
{
    let total = e.spec_new_total_enthalpy(f, heat, work, dt, mflow);
    lemma_div_is_ordered(0, total, e.spec_mass(f));
    lemma_enthalpy_to_temperature_in_range(f, e.spec_new_bulk_enthalpy(f, heat, work, dt, mflow));
}

/// Product bound used to discharge fixed-point overflow checks.
proof fn lemma_signed_product_bound(a: int, b: int, abound: int, bbound: int)
    by (nonlinear_arith)
    requires
        -abound <= a <= abound,
        -bbound <= b <= bbound,
        0 <= abound,
        0 <= bbound,
    ensures
        -(abound * bbound) <= a * b <= abound * bbound,
{
}

/// A product of two factors that are at least one is at least one.
proof fn lemma_product_at_least_one(a: int, b: int)
    by (nonlinear_arith)
    requires
        1 <= a,
        1 <= b,
    ensures
        1 <= a * b,
{
}

impl ControlVolumeEntity {
    /// Creates an entity with every temperature field set to
    /// `initial_temperature`, every specific-enthalpy field derived from it,
    /// and both neighbors unset.  Fails if and only if the initial
    /// temperature is outside the fluid's valid range or the timestep or
    /// volume is outside the quantity caps.
    pub fn create(
        timestep: Time,
        initial_temperature: Temperature,
        fluid_volume: Volume,
        index: usize,
        f: &FluidModel,
    ) -> (r: Result<ControlVolumeEntity, CalculationError>)
        requires
            f.wf(),
        ensures
            match r {
                Ok(e) => {
                    &&& f.spec_valid_temperature(initial_temperature.millikelvin as int)
                    &&& 1 <= fluid_volume.cubic_millimetre <= VOLUME_CAP
                    &&& 1 <= timestep.millisecond <= TIME_CAP
                    &&& e.wf(*f)
                    &&& e.index == index
                    &&& e.inlet_neighbor_index is None
                    &&& e.outlet_neighbor_index is None
                    &&& e.inlet_temp_old == initial_temperature
                    &&& e.inlet_temp_new == initial_temperature
                    &&& e.outlet_temp_old == initial_temperature
                    &&& e.outlet_temp_new == initial_temperature
                    &&& e.bulk_temp_old == initial_temperature
                    &&& e.bulk_temp_new == initial_temperature
                    &&& e.inlet_enthalpy_old.millijoule_per_kilogram == f.spec_enthalpy(
                        initial_temperature.millikelvin as int,
                    )
                    &&& e.inlet_enthalpy_new == e.inlet_enthalpy_old
                    &&& e.outlet_enthalpy_old == e.inlet_enthalpy_old
                    &&& e.outlet_enthalpy_new == e.inlet_enthalpy_old
                    &&& e.bulk_enthalpy_old == e.inlet_enthalpy_old
                    &&& e.bulk_enthalpy_new == e.inlet_enthalpy_old
                    &&& e.fluid_volume == fluid_volume
                    &&& e.timestep == timestep
                },
                Err(err) => {
                    &&& !(f.spec_valid_temperature(initial_temperature.millikelvin as int) && 1
                        <= fluid_volume.cubic_millimetre <= VOLUME_CAP && 1
                        <= timestep.millisecond <= TIME_CAP)
                    &&& err == CalculationError::OutOfRange
                },
            },
    {
        if fluid_volume.cubic_millimetre < 1 || fluid_volume.cubic_millimetre > VOLUME_CAP {
            return Err(CalculationError::OutOfRange);
        }
        if timestep.millisecond < 1 || timestep.millisecond > TIME_CAP {
            return Err(CalculationError::OutOfRange);
        }
        let h0 = match f.enthalpy(initial_temperature) {
            Ok(h) => h,
            Err(err) => {
                return Err(err);
            },
        };
        Ok(
            ControlVolumeEntity {
                index,
                inlet_neighbor_index: None,
                outlet_neighbor_index: None,
                inlet_temp_old: initial_temperature,
                inlet_temp_new: initial_temperature,
                outlet_temp_old: initial_temperature,
                outlet_temp_new: initial_temperature,
                bulk_temp_old: initial_temperature,
                bulk_temp_new: initial_temperature,
                inlet_enthalpy_old: h0,
                inlet_enthalpy_new: h0,
                outlet_enthalpy_old: h0,
                outlet_enthalpy_new: h0,
                bulk_enthalpy_old: h0,
                bulk_enthalpy_new: h0,
                fluid_volume,
                timestep,
            },
        )
    }

    /// Records `other` as the entity feeding this entity's inlet.  Touches
    /// nothing else; the symmetric network-level `connect` updates both
    /// sides.
    pub fn connect_inlet(&mut self, other: &ControlVolumeEntity)
        ensures
            *final(self) == (ControlVolumeEntity {
                inlet_neighbor_index: Some(other.index),
                ..*old(self)
            }),
    {
        self.inlet_neighbor_index = Some(other.index);
    }

    /// Records `other` as the entity consuming this entity's outlet.
    pub fn connect_outlet(&mut self, other: &ControlVolumeEntity)
        ensures
            *final(self) == (ControlVolumeEntity {
                outlet_neighbor_index: Some(other.index),
                ..*old(self)
            }),
    {
        self.outlet_neighbor_index = Some(other.index);
    }

    /// First step of the protocol: re-averages the bulk old temperature
    /// from the old inlet and outlet temperatures and derives the three old
    /// specific enthalpies through the fluid model.
    pub fn compute_current_enthalpies(&mut self, f: &FluidModel)
        requires
            old(self).wf(*f),
        ensures
            *final(self) == old(self).spec_after_compute(*f),
            final(self).wf(*f),
    {
        let t_in = self.inlet_temp_old;
        let t_out = self.outlet_temp_old;
        let sum: u64 = (t_in.millikelvin as u64) + (t_out.millikelvin as u64);
        let avg = Temperature { millikelvin: (sum / 2) as i64 };
        proof {
            let lo = f.min_temperature.millikelvin as int;
            let hi = f.max_temperature.millikelvin as int;
            lemma_div_is_ordered(2 * lo, sum as int, 2);
            lemma_div_is_ordered(sum as int, 2 * hi, 2);
            lemma_div_multiples_vanish(lo, 2);
            lemma_div_multiples_vanish(hi, 2);
        }
        self.bulk_temp_old = avg;
        let h_in = match f.enthalpy(t_in) {
            Ok(h) => h,
            Err(_) => {
                proof {
                    assert(false);
                }
                return;
            },
        };
        let h_out = match f.enthalpy(t_out) {
            Ok(h) => h,
            Err(_) => {
                proof {
                    assert(false);
                }
                return;
            },
        };
        let h_bulk = match f.enthalpy(avg) {
            Ok(h) => h,
            Err(_) => {
                proof {
                    assert(false);
                }
                return;
            },
        };
        self.inlet_enthalpy_old = h_in;
        self.outlet_enthalpy_old = h_out;
        self.bulk_enthalpy_old = h_bulk;
    }

    /// Second step of the protocol: the explicit energy balance.  Computes
    /// the exact new total enthalpy
    /// `H_new = mass * h_outlet_old + dt * (H_in - H_out + Q + W)` with the
    /// outlet specific enthalpy as the pre-update basis, and divides by the
    /// control-volume mass to obtain the new bulk specific enthalpy.
    ///
    /// Fails with `OutOfRange`, leaving the entity unchanged, if and only
    /// if the balance leaves the fluid's valid specific-enthalpy range.
    pub fn advance_enthalpy(
        &mut self,
        heat_supplied: Power,
        work_done: Power,
        timestep: Time,
        mass_flow: MassRate,
        f: &FluidModel,
    ) -> (r: Result<(), CalculationError>)
        requires
            old(self).wf(*f),
            -POWER_CAP <= heat_supplied.milliwatt <= POWER_CAP,
            -POWER_CAP <= work_done.milliwatt <= POWER_CAP,
            1 <= timestep.millisecond <= TIME_CAP,
            -MASS_RATE_CAP <= mass_flow.milligram_per_second <= MASS_RATE_CAP,
        ensures
            match r {
                Ok(()) => {
                    &&& old(self).spec_advance_ok(
                        *f,
                        heat_supplied.milliwatt as int,
                        work_done.milliwatt as int,
                        timestep.millisecond as int,
                        mass_flow.milligram_per_second as int,
                    )
                    &&& *final(self) == (ControlVolumeEntity {
                        bulk_enthalpy_new: SpecificEnthalpy {
                            millijoule_per_kilogram: old(self).spec_new_bulk_enthalpy(
                                *f,
                                heat_supplied.milliwatt as int,
                                work_done.milliwatt as int,
                                timestep.millisecond as int,
                                mass_flow.milligram_per_second as int,
                            ) as i64,
                        },
                        ..*old(self)
                    })
                    &&& final(self).wf(*f)
                },
                Err(e) => {
                    &&& !old(self).spec_advance_ok(
                        *f,
                        heat_supplied.milliwatt as int,
                        work_done.milliwatt as int,
                        timestep.millisecond as int,
                        mass_flow.milligram_per_second as int,
                    )
                    &&& *final(self) == *old(self)
                    &&& e == CalculationError::OutOfRange
                },
            },
    {
        let rho = match f.density(self.bulk_temp_old) {
            Ok(d) => d,
            Err(_) => {
                proof {
                    assert(false);
                }
                return Err(CalculationError::OutOfRange);
            },
        };
        proof {
            lemma_signed_product_bound(
                rho.gram_per_cubic_metre as int,
                self.fluid_volume.cubic_millimetre as int,
                100_000_000,
                VOLUME_CAP as int,
            );
            lemma_product_at_least_one(
                rho.gram_per_cubic_metre as int,
                self.fluid_volume.cubic_millimetre as int,
            );
        }
        let mass: i128 = (rho.gram_per_cubic_metre as i128) * (self.fluid_volume.cubic_millimetre
            as i128);
        let h_in: i64 = self.inlet_enthalpy_old.millijoule_per_kilogram;
        let h_out: i64 = self.outlet_enthalpy_old.millijoule_per_kilogram;
        proof {
            lemma_signed_product_bound(
                f.specific_heat as int,
                f.max_temperature.millikelvin - f.min_temperature.millikelvin,
                100_000,
                1_000_000,
            );
            lemma_signed_product_bound(
                mass_flow.milligram_per_second as int,
                h_in - h_out,
                MASS_RATE_CAP as int,
                100_000_000_000,
            );
        }
        let flow_term: i128 = (mass_flow.milligram_per_second as i128) * ((h_in as i128) - (h_out
            as i128));
        let power_term: i128 = 1_000_000i128 * ((heat_supplied.milliwatt as i128) + (work_done
            .milliwatt as i128));
        let rate: i128 = flow_term + power_term;
        proof {
            lemma_signed_product_bound(
                1000 * (timestep.millisecond as int),
                rate as int,
                1000 * (TIME_CAP as int),
                200_000_000_000_000_000_000_000,
            );
        }
        let delta: i128 = (1000i128 * (timestep.millisecond as i128)) * rate;
        proof {
            lemma_signed_product_bound(
                mass as int,
                h_out as int,
                100_000_000_000_000_000,
                100_000_000_000,
            );
        }
        let h_old_total: i128 = mass * (h_out as i128);
        let h_new_total: i128 = h_old_total + delta;
        let ghost heat_i = heat_supplied.milliwatt as int;
        let ghost work_i = work_done.milliwatt as int;
        let ghost dt_i = timestep.millisecond as int;
        let ghost mflow_i = mass_flow.milligram_per_second as int;
        assert(h_new_total as int == old(self).spec_new_total_enthalpy(
            *f,
            heat_i,
            work_i,
            dt_i,
            mflow_i,
        ));
        if h_new_total < 0 {
            return Err(CalculationError::OutOfRange);
        }
        let quotient: u128 = (h_new_total as u128) / (mass as u128);
        proof {
            lemma_div_is_ordered(0, h_new_total as int, mass as int);
        }
        let span = f.max_temperature.millikelvin - f.min_temperature.millikelvin;
        proof {
            lemma_signed_product_bound(f.specific_heat as int, span as int, 100_000, 1_000_000);
        }
        let max_h = f.specific_heat * span;
        if quotient > (max_h as u128) {
            return Err(CalculationError::OutOfRange);
        }
        self.bulk_enthalpy_new = SpecificEnthalpy { millijoule_per_kilogram: quotient as i64 };
        Ok(())
    }

    /// Third step of the protocol: resolves the new bulk temperature from
    /// the new bulk specific enthalpy.  Under the well-mixed assumption the
    /// returned value is also the entity's new outlet temperature.
    pub fn resolve_new_temperature(&mut self, f: &FluidModel) -> (t: Temperature)
        requires
            old(self).wf(*f),
        ensures
            t.millikelvin == f.spec_temperature_from_enthalpy(
                old(self).bulk_enthalpy_new.millijoule_per_kilogram as int,
            ),
            f.spec_valid_temperature(t.millikelvin as int),
            *final(self) == (ControlVolumeEntity { bulk_temp_new: t, ..*old(self) }),
            final(self).wf(*f),
    {
        let h = self.bulk_enthalpy_new;
        let t = match f.get_temperature_from_enthalpy(h) {
            Ok(t) => t,
            Err(_) => {
                proof {
                    assert(false);
                }
                return Temperature { millikelvin: 0 };
            },
        };
        self.bulk_temp_new = t;
        t
    }

    /// Fourth step of the protocol: stores the new inlet temperature,
    /// normally the connected upstream entity's new outlet temperature.
    pub fn set_inlet_temperature_new(&mut self, t: Temperature)
        ensures
            *final(self) == (ControlVolumeEntity { inlet_temp_new: t, ..*old(self) }),
    {
        self.inlet_temp_new = t;
    }

    /// Fifth step of the protocol: stores the new outlet temperature,
    /// normally the entity's own new bulk temperature.
    pub fn set_outlet_temperature_new(&mut self, t: Temperature)
        ensures
            *final(self) == (ControlVolumeEntity { outlet_temp_new: t, ..*old(self) }),
    {
        self.outlet_temp_new = t;
    }

    /// Sixth step of the protocol: promotes the new inlet and outlet
    /// temperatures to old and reseeds both bulk temperature fields with
    /// their midpoint.  The authoritative energy state of the next step is
    /// re-derived from the promoted outlet temperature once
    /// [`compute_current_enthalpies`](Self::compute_current_enthalpies)
    /// runs again.
    pub fn commit_timestep(&mut self)
        requires
            0 <= old(self).inlet_temp_new.millikelvin <= TEMPERATURE_CAP,
            0 <= old(self).outlet_temp_new.millikelvin <= TEMPERATURE_CAP,
        ensures
            *final(self) == old(self).spec_commit(),
    {
        let sum: u64 = (self.inlet_temp_new.millikelvin as u64) + (self.outlet_temp_new.millikelvin
            as u64);
        let seed = Temperature { millikelvin: (sum / 2) as i64 };
        proof {
            lemma_div_is_ordered(0, sum as int, 2);
            lemma_div_is_ordered(sum as int, 2 * (TEMPERATURE_CAP as int), 2);
            lemma_div_multiples_vanish(TEMPERATURE_CAP as int, 2);
        }
        self.inlet_temp_old = self.inlet_temp_new;
        self.outlet_temp_old = self.outlet_temp_new;
        self.bulk_temp_old = seed;
        self.bulk_temp_new = seed;
    }
}

} // verus!
