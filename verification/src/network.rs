//! The network manager: a dense, index-addressed collection of control
//! volumes with the per-timestep batch driver.
//!
//! [`ControlVolumeNetwork::connect`] wires both directions of a junction in
//! one call, so the neighbor graph can never become one-sided.
//! [`ControlVolumeNetwork::step`] runs the six passes of the explicit
//! protocol as strict sequential barriers over the whole collection: first
//! every entity finishes the current-enthalpy pass, then every entity
//! advances its energy balance, then every new outlet temperature is
//! materialized into an immutable table, and only then are inlet
//! temperatures resolved through the table, outlet temperatures assigned,
//! and the whole collection committed.  The cross-entity coupling reads
//! only the table, so no entity ever observes a half-updated neighbor.
//!
//! `step` is transactional: on any failure the network is left exactly as
//! it was.

use vstd::prelude::*;

use crate::units::{
    Temperature, SpecificEnthalpy, Power, MassRate, Time, Volume, TEMPERATURE_CAP, POWER_CAP,
    MASS_RATE_CAP, TIME_CAP, VOLUME_CAP,
};
use crate::fluid::FluidModel;
use crate::entity::{
    ControlVolumeEntity, lemma_after_compute_wf, lemma_new_bulk_enthalpy_valid,
    lemma_average_in_range,
};
use crate::errors::CalculationError;

verus! {

/// A directed network of control volumes, stepped in lockstep.
#[derive(Debug)]
pub struct ControlVolumeNetwork {
    /// The entities, addressed by index; insertion order equals index.
    pub entities: Vec<ControlVolumeEntity>,
    /// The shared fluid property provider.
    pub fluid: FluidModel,
    /// The network-global timestep.
    pub timestep: Time,
    /// The uniform temperature every new entity starts from.
    pub initial_temperature: Temperature,
}

impl ControlVolumeNetwork {
    /// Well-formedness of one slot: the entity is well formed, sits at its
    /// own index, shares the network timestep, and its neighbor indices,
    /// when set, point inside the network.
    pub open spec fn entity_wf_at(self, i: int) -> bool {
        let e = self.entities@[i];
        &&& e.wf(self.fluid)
        &&& e.index == i
        &&& e.timestep == self.timestep
        &&& (e.inlet_neighbor_index matches Some(p) ==> (p as int) < self.entities@.len())
        &&& (e.outlet_neighbor_index matches Some(p) ==> (p as int) < self.entities@.len())
    }

    /// Well-formedness of the whole network.
    pub open spec fn wf(self) -> bool {
        &&& self.fluid.wf()
        &&& 1 <= self.timestep.millisecond <= TIME_CAP
        &&& self.fluid.spec_valid_temperature(self.initial_temperature.millikelvin as int)
        &&& forall|i: int|
            0 <= i < self.entities@.len() ==> #[trigger] self.entity_wf_at(i)
    }

    /// Whether entity `i` has both neighbors assigned.
    pub open spec fn connected_at(self, i: int) -> bool {
        &&& self.entities@[i].inlet_neighbor_index is Some
        &&& self.entities@[i].outlet_neighbor_index is Some
    }

    /// Whether every entity has both neighbors assigned.
    pub open spec fn all_connected(self) -> bool {
        forall|i: int| 0 <= i < self.entities@.len() ==> #[trigger] self.connected_at(i)
    }

    /// Index of the entity feeding entity `i`'s inlet.
    pub open spec fn upstream_of(self, i: int) -> int {
        match self.entities@[i].inlet_neighbor_index {
            Some(p) => p as int,
            None => 0,
        }
    }

    /// The caller-supplied per-entity input vectors: one heat rate, work
    /// rate and mass flow per entity, all inside the quantity caps.
    pub open spec fn inputs_ok(
        self,
        heat: Seq<Power>,
        work: Seq<Power>,
        mflow: Seq<MassRate>,
    ) -> bool {
        &&& heat.len() == self.entities@.len()
        &&& work.len() == self.entities@.len()
        &&& mflow.len() == self.entities@.len()
        &&& forall|i: int|
            0 <= i < heat.len() ==> -POWER_CAP <= (#[trigger] heat[i]).milliwatt <= POWER_CAP
        &&& forall|i: int|
            0 <= i < work.len() ==> -POWER_CAP <= (#[trigger] work[i]).milliwatt <= POWER_CAP
        &&& forall|i: int|
            0 <= i < mflow.len() ==> -MASS_RATE_CAP <= (#[trigger] mflow[i]).milligram_per_second
                <= MASS_RATE_CAP
    }

    /// Entity `i` after the first pass of the protocol.
    pub open spec fn pass1_at(self, i: int) -> ControlVolumeEntity {
        self.entities@[i].spec_after_compute(self.fluid)
    }

    /// Whether entity `i`'s energy balance lands in the valid range.
    pub open spec fn advance_ok_at(
        self,
        i: int,
        heat: Seq<Power>,
        work: Seq<Power>,
        mflow: Seq<MassRate>,
    ) -> bool {
        self.pass1_at(i).spec_advance_ok(
            self.fluid,
            heat[i].milliwatt as int,
            work[i].milliwatt as int,
            self.timestep.millisecond as int,
            mflow[i].milligram_per_second as int,
        )
    }

    /// Whether every entity's energy balance lands in the valid range.
    pub open spec fn all_advance_ok(
        self,
        heat: Seq<Power>,
        work: Seq<Power>,
        mflow: Seq<MassRate>,
    ) -> bool {
        forall|i: int|
            0 <= i < self.entities@.len() ==> #[trigger] self.advance_ok_at(i, heat, work, mflow)
    }

    /// The new bulk specific enthalpy of entity `i` for this step.
    pub open spec fn new_bulk_enthalpy_at(
        self,
        i: int,
        heat: Seq<Power>,
        work: Seq<Power>,
        mflow: Seq<MassRate>,
    ) -> int {
        self.pass1_at(i).spec_new_bulk_enthalpy(
            self.fluid,
            heat[i].milliwatt as int,
            work[i].milliwatt as int,
            self.timestep.millisecond as int,
            mflow[i].milligram_per_second as int,
        )
    }

    /// The entry of the outlet-temperature table for entity `i`: its new
    /// bulk temperature, which under the well-mixed assumption is also its
    /// new outlet temperature.
    pub open spec fn new_outlet_temp_at(
        self,
        i: int,
        heat: Seq<Power>,
        work: Seq<Power>,
        mflow: Seq<MassRate>,
    ) -> int {
        self.fluid.spec_temperature_from_enthalpy(self.new_bulk_enthalpy_at(i, heat, work, mflow))
    }

    /// Entity `i` after passes one to three: enthalpies computed, energy
    /// balance advanced, new bulk temperature resolved.
    pub open spec fn entity_after_resolve(
        self,
        i: int,
        heat: Seq<Power>,
        work: Seq<Power>,
        mflow: Seq<MassRate>,
    ) -> ControlVolumeEntity {
        ControlVolumeEntity {
            bulk_enthalpy_new: SpecificEnthalpy {
                millijoule_per_kilogram: self.new_bulk_enthalpy_at(i, heat, work, mflow) as i64,
            },
            bulk_temp_new: Temperature {
                millikelvin: self.new_outlet_temp_at(i, heat, work, mflow) as i64,
            },
            ..self.pass1_at(i)
        }
    }

    /// Entity `i` after the whole step: inlet temperature taken from the
    /// upstream neighbor's table entry, outlet temperature from its own,
    /// and the state committed.
    pub open spec fn entity_after_step(
        self,
        i: int,
        heat: Seq<Power>,
        work: Seq<Power>,
        mflow: Seq<MassRate>,
    ) -> ControlVolumeEntity {
        let up = self.upstream_of(i);
        let staged = ControlVolumeEntity {
            inlet_temp_new: Temperature {
                millikelvin: self.new_outlet_temp_at(up, heat, work, mflow) as i64,
            },
            outlet_temp_new: Temperature {
                millikelvin: self.new_outlet_temp_at(i, heat, work, mflow) as i64,
            },
            ..self.entity_after_resolve(i, heat, work, mflow)
        };
        staged.spec_commit()
    }
}

/// The table entry of a successfully advanced entity is a valid
/// temperature.
proof fn lemma_table_entry_valid(
    pre: ControlVolumeNetwork,
    i: int,
    heat: Seq<Power>,
    work: Seq<Power>,
    mflow: Seq<MassRate>,
)
    requires
        pre.wf(),
        0 <= i < pre.entities@.len(),
        pre.advance_ok_at(i, heat, work, mflow),
    ensures
        pre.fluid.spec_valid_enthalpy(pre.new_bulk_enthalpy_at(i, heat, work, mflow)),
        pre.fluid.spec_valid_temperature(pre.new_outlet_temp_at(i, heat, work, mflow)),
        0 <= pre.new_bulk_enthalpy_at(i, heat, work, mflow) <= 100_000_000_000,
        0 <= pre.new_outlet_temp_at(i, heat, work, mflow) <= TEMPERATURE_CAP,
{
    assert(pre.entity_wf_at(i));
    let cp = pre.fluid.specific_heat as int;
    let span = pre.fluid.max_temperature.millikelvin - pre.fluid.min_temperature.millikelvin;
    assert(cp * span <= 100_000_000_000) by (nonlinear_arith)
        requires
            0 <= cp <= 100_000,
            0 <= span <= 1_000_000,
    ;
    lemma_after_compute_wf(pre.entities@[i], pre.fluid);
    lemma_new_bulk_enthalpy_valid(
        pre.pass1_at(i),
        pre.fluid,
        heat[i].milliwatt as int,
        work[i].milliwatt as int,
        pre.timestep.millisecond as int,
        mflow[i].milligram_per_second as int,
    );
}

/// A fully stepped entity is well formed and keeps its identity, its
/// neighbors, its volume and its timestep.
proof fn lemma_after_step_wf(
    pre: ControlVolumeNetwork,
    i: int,
    heat: Seq<Power>,
    work: Seq<Power>,
    mflow: Seq<MassRate>,
)
    requires
        pre.wf(),
        0 <= i < pre.entities@.len(),
        pre.all_connected(),
        pre.all_advance_ok(heat, work, mflow),
        pre.inputs_ok(heat, work, mflow),
    ensures
        pre.entity_after_step(i, heat, work, mflow).wf(pre.fluid),
        pre.entity_after_step(i, heat, work, mflow).index == pre.entities@[i].index,
        pre.entity_after_step(i, heat, work, mflow).inlet_neighbor_index == pre.entities@[
            i
        ].inlet_neighbor_index,
        pre.entity_after_step(i, heat, work, mflow).outlet_neighbor_index == pre.entities@[
            i
        ].outlet_neighbor_index,
        pre.entity_after_step(i, heat, work, mflow).timestep == pre.entities@[i].timestep,
        pre.entity_after_step(i, heat, work, mflow).fluid_volume == pre.entities@[i].fluid_volume,
    {
    let up = pre.upstream_of(i);
    assert(pre.entity_wf_at(i));
    assert(pre.connected_at(i));
    assert(0 <= up < pre.entities@.len());
    assert(pre.advance_ok_at(i, heat, work, mflow));
    assert(pre.advance_ok_at(up, heat, work, mflow));
    lemma_table_entry_valid(pre, i, heat, work, mflow);
    lemma_table_entry_valid(pre, up, heat, work, mflow);
    lemma_after_compute_wf(pre.entities@[i], pre.fluid);
    lemma_average_in_range(
        pre.new_outlet_temp_at(up, heat, work, mflow),
        pre.new_outlet_temp_at(i, heat, work, mflow),
        pre.fluid.min_temperature.millikelvin as int,
        pre.fluid.max_temperature.millikelvin as int,
    );
}

impl ControlVolumeNetwork {
    /// Creates an empty network that will seed every entity with the given
    /// timestep and uniform initial temperature.  Fails if and only if the
    /// timestep is outside the quantity caps or the initial temperature is
    /// outside the fluid's valid range.
    pub fn new_network(
        timestep: Time,
        initial_temperature: Temperature,
        fluid: FluidModel,
    ) -> (r: Result<ControlVolumeNetwork, CalculationError>)
        requires
            fluid.wf(),
        ensures
            match r {
                Ok(net) => {
                    &&& 1 <= timestep.millisecond <= TIME_CAP
                    &&& fluid.spec_valid_temperature(initial_temperature.millikelvin as int)
                    &&& net.wf()
                    &&& net.entities@.len() == 0
                    &&& net.fluid == fluid
                    &&& net.timestep == timestep
                    &&& net.initial_temperature == initial_temperature
                },
                Err(e) => {
                    &&& !(1 <= timestep.millisecond <= TIME_CAP && fluid.spec_valid_temperature(
                        initial_temperature.millikelvin as int,
                    ))
                    &&& e == CalculationError::OutOfRange
                },
            },
    {
        if timestep.millisecond < 1 || timestep.millisecond > TIME_CAP {
            return Err(CalculationError::OutOfRange);
        }
        if initial_temperature.millikelvin < fluid.min_temperature.millikelvin
            || initial_temperature.millikelvin > fluid.max_temperature.millikelvin {
            return Err(CalculationError::OutOfRange);
        }
        Ok(
            ControlVolumeNetwork {
                entities: Vec::new(),
                fluid,
                timestep,
                initial_temperature,
            },
        )
    }

    /// Number of entities in the network.
    pub fn number_of_entities(&self) -> (n: usize)
        ensures
            n == self.entities@.len(),
    {
        self.entities.len()
    }

    /// Appends a new entity seeded with the network's shared timestep and
    /// initial temperature and returns its index.  Indices are assigned
    /// monotonically and never reused.  Fails, leaving the network
    /// unchanged, if and only if the volume is outside the quantity caps.
    pub fn add_entity(&mut self, fluid_volume: Volume) -> (r: Result<usize, CalculationError>)
        requires
            old(self).wf(),
        ensures
            final(self).wf(),
            final(self).fluid == old(self).fluid,
            final(self).timestep == old(self).timestep,
            final(self).initial_temperature == old(self).initial_temperature,
            match r {
                Ok(ix) => {
                    &&& 1 <= fluid_volume.cubic_millimetre <= VOLUME_CAP
                    &&& ix == old(self).entities@.len()
                    &&& final(self).entities@.len() == old(self).entities@.len() + 1
                    &&& forall|j: int|
                        0 <= j < old(self).entities@.len() ==> #[trigger] final(self).entities@[j] == old(self).entities@[j]
                    &&& final(self).entities@[ix as int].index == ix
                    &&& final(self).entities@[ix as int].inlet_neighbor_index is None
                    &&& final(self).entities@[ix as int].outlet_neighbor_index is None
                    &&& final(self).entities@[ix as int].fluid_volume == fluid_volume
                    &&& final(self).entities@[ix as int].timestep == old(self).timestep
                    &&& final(self).entities@[ix as int].inlet_temp_old == old(self).initial_temperature
                    &&& final(self).entities@[ix as int].outlet_temp_old == old(self).initial_temperature
                    &&& final(self).entities@[ix as int].outlet_temp_new == old(self).initial_temperature
                    &&& final(self).entities@[ix as int].inlet_temp_new == old(self).initial_temperature
                    &&& final(self).entities@[ix as int].bulk_temp_old == old(self).initial_temperature
                    &&& final(self).entities@[ix as int].bulk_temp_new == old(self).initial_temperature
                    &&& final(self).entities@[ix as int].inlet_enthalpy_old.millijoule_per_kilogram
                        == old(self).fluid.spec_enthalpy(
                        old(self).initial_temperature.millikelvin as int,
                    )
                    &&& final(self).entities@[ix as int].inlet_enthalpy_new == final(self).entities@[ix as int].inlet_enthalpy_old
                    &&& final(self).entities@[ix as int].outlet_enthalpy_old == final(self).entities@[ix as int].inlet_enthalpy_old
                    &&& final(self).entities@[ix as int].outlet_enthalpy_new == final(self).entities@[ix as int].inlet_enthalpy_old
                    &&& final(self).entities@[ix as int].bulk_enthalpy_old == final(self).entities@[ix as int].inlet_enthalpy_old
                    &&& final(self).entities@[ix as int].bulk_enthalpy_new == final(self).entities@[ix as int].inlet_enthalpy_old
                },
                Err(e) => {
                    &&& *final(self) == *old(self)
                    &&& !(1 <= fluid_volume.cubic_millimetre <= VOLUME_CAP)
                    &&& e == CalculationError::OutOfRange
                },
            },
    {
        let ix = self.entities.len();
        let entity = match ControlVolumeEntity::create(
            self.timestep,
            self.initial_temperature,
            fluid_volume,
            ix,
            &self.fluid,
        ) {
            Ok(e) => e,
            Err(err) => {
                return Err(err);
            },
        };
        self.entities.push(entity);
        proof {
            assert forall|i: int| 0 <= i < final(self).entities@.len() implies #[trigger] final(self).entity_wf_at(i) by {
                if i < old(self).entities@.len() {
                    assert(old(self).entity_wf_at(i));
                }
            }
        }
        Ok(ix)
    }

    /// Wires entity `connect_to_pipe_outlet_index`'s outlet to entity
    /// `connect_to_pipe_inlet_index`'s inlet.  One call establishes both
    /// directions: the upstream entity records its new downstream neighbor
    /// and the downstream entity records its new upstream neighbor.
    /// A self-loop (both indices equal) is a valid topology.
    pub fn connect(
        &mut self,
        connect_to_pipe_outlet_index: usize,
        connect_to_pipe_inlet_index: usize,
    )
        requires
            old(self).wf(),
            connect_to_pipe_outlet_index < old(self).entities@.len(),
            connect_to_pipe_inlet_index < old(self).entities@.len(),
        ensures
            final(self).wf(),
            final(self).fluid == old(self).fluid,
            final(self).timestep == old(self).timestep,
            final(self).initial_temperature == old(self).initial_temperature,
            final(self).entities@.len() == old(self).entities@.len(),
            final(self).entities@[connect_to_pipe_outlet_index as int].outlet_neighbor_index
                == Some(connect_to_pipe_inlet_index),
            final(self).entities@[connect_to_pipe_inlet_index as int].inlet_neighbor_index == Some(
                connect_to_pipe_outlet_index,
            ),
            forall|j: int|
                0 <= j < old(self).entities@.len() && j != connect_to_pipe_outlet_index && j
                    != connect_to_pipe_inlet_index ==> #[trigger] final(self).entities@[j] == old(self).entities@[j],
            connect_to_pipe_outlet_index != connect_to_pipe_inlet_index ==> final(self).entities@[connect_to_pipe_inlet_index as int] == (ControlVolumeEntity {
                inlet_neighbor_index: Some(connect_to_pipe_outlet_index),
                ..old(self).entities@[connect_to_pipe_inlet_index as int]
            }),
            connect_to_pipe_outlet_index != connect_to_pipe_inlet_index ==> final(self).entities@[connect_to_pipe_outlet_index as int] == (ControlVolumeEntity {
                outlet_neighbor_index: Some(connect_to_pipe_inlet_index),
                ..old(self).entities@[connect_to_pipe_outlet_index as int]
            }),
            connect_to_pipe_outlet_index == connect_to_pipe_inlet_index ==> final(self).entities@[connect_to_pipe_outlet_index as int] == (ControlVolumeEntity {
                inlet_neighbor_index: Some(connect_to_pipe_outlet_index),
                outlet_neighbor_index: Some(connect_to_pipe_inlet_index),
                ..old(self).entities@[connect_to_pipe_outlet_index as int]
            }),
    {
        proof {
            assert(old(self).entity_wf_at(connect_to_pipe_outlet_index as int));
            assert(old(self).entity_wf_at(connect_to_pipe_inlet_index as int));
        }
        let upstream_copy = self.entities[connect_to_pipe_outlet_index];
        let mut downstream = self.entities[connect_to_pipe_inlet_index];
        downstream.connect_inlet(&upstream_copy);
        self.entities.set(connect_to_pipe_inlet_index, downstream);
        let downstream_copy = self.entities[connect_to_pipe_inlet_index];
        let mut upstream = self.entities[connect_to_pipe_outlet_index];
        upstream.connect_outlet(&downstream_copy);
        self.entities.set(connect_to_pipe_outlet_index, upstream);
        proof {
            assert forall|i: int| 0 <= i < final(self).entities@.len() implies #[trigger] final(self).entity_wf_at(i) by {
                assert(old(self).entity_wf_at(i));
            }
        }
    }

    /// Outlet temperature of entity `index` for the timestep in progress.
    pub fn get_outlet_temperature(&self, index: usize) -> (t: Temperature)
        requires
            index < self.entities@.len(),
        ensures
            t == self.entities@[index as int].outlet_temp_new,
    {
        self.entities[index].outlet_temp_new
    }

    /// Inlet temperature of entity `index` for the timestep in progress.
    pub fn get_inlet_temperature(&self, index: usize) -> (t: Temperature)
        requires
            index < self.entities@.len(),
        ensures
            t == self.entities@[index as int].inlet_temp_new,
    {
        self.entities[index].inlet_temp_new
    }

    /// Bulk temperature of entity `index` for the timestep in progress.
    pub fn get_bulk_temperature(&self, index: usize) -> (t: Temperature)
        requires
            index < self.entities@.len(),
        ensures
            t == self.entities@[index as int].bulk_temp_new,
    {
        self.entities[index].bulk_temp_new
    }

    /// Bulk specific enthalpy of entity `index` for the timestep in
    /// progress.
    pub fn get_bulk_specific_enthalpy(&self, index: usize) -> (h: SpecificEnthalpy)
        requires
            index < self.entities@.len(),
        ensures
            h == self.entities@[index as int].bulk_enthalpy_new,
    {
        self.entities[index].bulk_enthalpy_new
    }

    /// Index of the entity feeding entity `index`'s inlet, if connected.
    pub fn get_inlet_neighbor_index(&self, index: usize) -> (p: Option<usize>)
        requires
            index < self.entities@.len(),
        ensures
            p == self.entities@[index as int].inlet_neighbor_index,
    {
        self.entities[index].inlet_neighbor_index
    }

    /// Index of the entity consuming entity `index`'s outlet, if connected.
    pub fn get_outlet_neighbor_index(&self, index: usize) -> (p: Option<usize>)
        requires
            index < self.entities@.len(),
        ensures
            p == self.entities@[index as int].outlet_neighbor_index,
    {
        self.entities[index].outlet_neighbor_index
    }

    /// Runs one full timestep over the whole collection: the six passes of
    /// the explicit protocol as sequential barriers.
    ///
    /// Fails with `UnconnectedEntity`, before any computation, if and only
    /// if some entity still has an unset neighbor; fails with `OutOfRange`
    /// if and only if every entity is connected but some entity's energy
    /// balance leaves the fluid's valid range.  On any failure the network
    /// is left exactly as it was — no partial mutation is observable.
    pub fn step(
        &mut self,
        heat_inputs: &Vec<Power>,
        work_inputs: &Vec<Power>,
        mass_flows: &Vec<MassRate>,
    ) -> (r: Result<(), CalculationError>)
        requires
            old(self).wf(),
            old(self).inputs_ok(heat_inputs@, work_inputs@, mass_flows@),
        ensures
            final(self).wf(),
            final(self).fluid == old(self).fluid,
            final(self).timestep == old(self).timestep,
            final(self).initial_temperature == old(self).initial_temperature,
            match r {
                Ok(()) => {
                    &&& old(self).all_connected()
                    &&& old(self).all_advance_ok(heat_inputs@, work_inputs@, mass_flows@)
                    &&& final(self).entities@.len() == old(self).entities@.len()
                    &&& forall|i: int|
                        0 <= i < old(self).entities@.len() ==> final(self).entities@[i]
                            == #[trigger] old(self).entity_after_step(
                            i,
                            heat_inputs@,
                            work_inputs@,
                            mass_flows@,
                        )
                },
                Err(e) => {
                    &&& *final(self) == *old(self)
                    &&& (e == CalculationError::UnconnectedEntity || e == CalculationError::OutOfRange)
                    &&& (e == CalculationError::UnconnectedEntity <==> !old(self).all_connected())
                    &&& (e == CalculationError::OutOfRange <==> old(self).all_connected()
                        && !old(self).all_advance_ok(heat_inputs@, work_inputs@, mass_flows@))
                },
            },
    {
        let n = self.entities.len();
        let mut i: usize = 0;
        while i < n
            invariant
                *self == *old(self),
                old(self).wf(),
                n == old(self).entities@.len(),
                i <= n,
                forall|j: int| 0 <= j < i ==> #[trigger] old(self).connected_at(j),
            decreases n - i,
        {
            proof {
                assert(old(self).entity_wf_at(i as int));
            }
            if self.entities[i].inlet_neighbor_index.is_none() || self.entities[
                i
            ].outlet_neighbor_index.is_none() {
                proof {
                    assert(!old(self).connected_at(i as int));
                }
                return Err(CalculationError::UnconnectedEntity);
            }
            i += 1;
        }
        // Passes 1 to 3: per-entity work with no cross-entity dependency,
        // staged away from the live collection so failure mutates nothing.
        let mut scratch: Vec<ControlVolumeEntity> = Vec::new();
        let mut outlet_table: Vec<Temperature> = Vec::new();
        let mut i: usize = 0;
        while i < n
            invariant
                *self == *old(self),
                old(self).wf(),
                old(self).inputs_ok(heat_inputs@, work_inputs@, mass_flows@),
                old(self).all_connected(),
                n == old(self).entities@.len(),
                i <= n,
                scratch@.len() == i,
                outlet_table@.len() == i,
                forall|j: int|
                    0 <= j < i ==> #[trigger] old(self).advance_ok_at(
                        j,
                        heat_inputs@,
                        work_inputs@,
                        mass_flows@,
                    ),
                forall|j: int|
                    0 <= j < i ==> #[trigger] scratch@[j] == old(self).entity_after_resolve(
                        j,
                        heat_inputs@,
                        work_inputs@,
                        mass_flows@,
                    ),
                forall|j: int|
                    0 <= j < i ==> #[trigger] outlet_table@[j] == (Temperature {
                        millikelvin: old(self).new_outlet_temp_at(
                            j,
                            heat_inputs@,
                            work_inputs@,
                            mass_flows@,
                        ) as i64,
                    }),
            decreases n - i,
        {
            proof {
                assert(old(self).entity_wf_at(i as int));
            }
            let mut e = self.entities[i];
            e.compute_current_enthalpies(&self.fluid);
            let advanced = e.advance_enthalpy(
                heat_inputs[i],
                work_inputs[i],
                self.timestep,
                mass_flows[i],
                &self.fluid,
            );
            match advanced {
                Ok(()) => {},
                Err(_) => {
                    proof {
                        assert(!old(self).advance_ok_at(
                            i as int,
                            heat_inputs@,
                            work_inputs@,
                            mass_flows@,
                        ));
                    }
                    return Err(CalculationError::OutOfRange);
                },
            }
            proof {
                lemma_table_entry_valid(
                    *old(self),
                    i as int,
                    heat_inputs@,
                    work_inputs@,
                    mass_flows@,
                );
            }
            let t = e.resolve_new_temperature(&self.fluid);
            scratch.push(e);
            outlet_table.push(t);
            i += 1;
        }
        // Passes 4 to 6: the cross-entity coupling reads only the
        // materialized outlet-temperature table, then the state is
        // committed entity by entity.
        let ghost pre = *old(self);
        let mut i: usize = 0;
        while i < n
            invariant
                *self == pre,
                pre == *old(self),
                pre.wf(),
                pre.inputs_ok(heat_inputs@, work_inputs@, mass_flows@),
                pre.all_connected(),
                pre.all_advance_ok(heat_inputs@, work_inputs@, mass_flows@),
                n == pre.entities@.len(),
                i <= n,
                scratch@.len() == n,
                outlet_table@.len() == n,
                forall|j: int|
                    0 <= j < n ==> #[trigger] outlet_table@[j] == (Temperature {
                        millikelvin: pre.new_outlet_temp_at(
                            j,
                            heat_inputs@,
                            work_inputs@,
                            mass_flows@,
                        ) as i64,
                    }),
                forall|j: int|
                    0 <= j < i ==> #[trigger] scratch@[j] == pre.entity_after_step(
                        j,
                        heat_inputs@,
                        work_inputs@,
                        mass_flows@,
                    ),
                forall|j: int|
                    i <= j < n ==> #[trigger] scratch@[j] == pre.entity_after_resolve(
                        j,
                        heat_inputs@,
                        work_inputs@,
                        mass_flows@,
                    ),
            decreases n - i,
        {
            proof {
                assert(pre.entity_wf_at(i as int));
                assert(pre.connected_at(i as int));
            }
            let mut e = scratch[i];
            let up = match e.inlet_neighbor_index {
                Some(p) => p,
                None => {
                    proof {
                        assert(false);
                    }
                    return Err(CalculationError::UnconnectedEntity);
                },
            };
            proof {
                assert(pre.advance_ok_at(up as int, heat_inputs@, work_inputs@, mass_flows@));
                assert(pre.advance_ok_at(i as int, heat_inputs@, work_inputs@, mass_flows@));
                lemma_table_entry_valid(pre, up as int, heat_inputs@, work_inputs@, mass_flows@);
                lemma_table_entry_valid(pre, i as int, heat_inputs@, work_inputs@, mass_flows@);
            }
            e.set_inlet_temperature_new(outlet_table[up]);
            e.set_outlet_temperature_new(outlet_table[i]);
            e.commit_timestep();
            scratch.set(i, e);
            i += 1;
        }
        self.entities = scratch;
        proof {
            assert forall|i: int| 0 <= i < final(self).entities@.len() implies #[trigger] final(self).entity_wf_at(i) by {
                lemma_after_step_wf(pre, i, heat_inputs@, work_inputs@, mass_flows@);
                assert(pre.entity_wf_at(i));
            }
        }
        Ok(())
    }
}

} // verus!
