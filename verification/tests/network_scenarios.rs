#![allow(non_snake_case)]

use heat_transfer_rust::units::{Temperature, Power, MassRate, Time, Volume};
use heat_transfer_rust::fluid::dowtherm_a;
use heat_transfer_rust::network::ControlVolumeNetwork;
use heat_transfer_rust::entity::ControlVolumeEntity;
use heat_transfer_rust::errors::CalculationError;

fn three_pipe_ring() -> ControlVolumeNetwork {
    let timestep = Time { millisecond: 100 };
    let initial_global_temp = Temperature { millikelvin: 300_000 };
    let fluid_volume = Volume { cubic_millimetre: 1_000 };
    let mut net = ControlVolumeNetwork::new_network(timestep, initial_global_temp, dowtherm_a())
        .unwrap();
    for _ in 0..3 {
        net.add_entity(fluid_volume).unwrap();
    }
    // 1 -> 2 -> 3 and 3 connects back to 1 in a circular fashion, with
    // pipe 1 at index 0, pipe 2 at index 1 and so on.
    net.connect(0, 1);
    net.connect(1, 2);
    net.connect(2, 0);
    net
}

fn three_pipe_inputs() -> (Vec<Power>, Vec<Power>, Vec<MassRate>) {
    let heats = vec![
        Power { milliwatt: 100_000 },
        Power { milliwatt: -20_000 },
        Power { milliwatt: -80_000 },
    ];
    let works = vec![
        Power { milliwatt: 0 },
        Power { milliwatt: 0 },
        Power { milliwatt: 0 },
    ];
    let flows = vec![
        MassRate { milligram_per_second: 180_000 },
        MassRate { milligram_per_second: 180_000 },
        MassRate { milligram_per_second: 180_000 },
    ];
    (heats, works, flows)
}

fn assert_relative_close(expected_millikelvin: i64, actual_millikelvin: i64, max_relative: f64) {
    let e = expected_millikelvin as f64;
    let a = actual_millikelvin as f64;
    assert!(
        (a - e).abs() <= max_relative * e.abs(),
        "expected about {} mK, got {} mK",
        expected_millikelvin,
        actual_millikelvin
    );
}

#[test]
fn sandbox_autobuild_conenct_and_autocalculation() {
    let mut net = three_pipe_ring();

    // Pipe 1 sits at index 0; pipe 3 (index 2) feeds its inlet and pipe 2
    // (index 1) consumes its outlet.
    assert_eq!(net.entities[0].index, 0);
    assert_eq!(net.get_inlet_neighbor_index(0), Some(2));
    assert_eq!(net.get_outlet_neighbor_index(0), Some(1));

    assert_eq!(net.entities[1].index, 1);
    assert_eq!(net.get_inlet_neighbor_index(1), Some(0));
    assert_eq!(net.get_outlet_neighbor_index(1), Some(2));

    assert_eq!(net.entities[2].index, 2);
    assert_eq!(net.get_inlet_neighbor_index(2), Some(1));
    assert_eq!(net.get_outlet_neighbor_index(2), Some(0));

    // Pipe 1 is heated at 100 W, pipe 2 loses 20 W and pipe 3 loses 80 W,
    // with 0.18 kg/s circulating and no work done.
    let (heats, works, flows) = three_pipe_inputs();
    net.step(&heats, &works, &flows).unwrap();

    let temp_1_val = 305_910;
    let temp_2_val = 298_800;
    let temp_3_val = 295_200;

    assert_relative_close(temp_1_val, net.get_outlet_temperature(0).millikelvin, 0.01);
    assert_relative_close(temp_2_val, net.get_outlet_temperature(1).millikelvin, 0.01);
    assert_relative_close(temp_3_val, net.get_outlet_temperature(2).millikelvin, 0.01);

    // Each pipe's new inlet temperature is its upstream neighbor's new
    // outlet temperature.
    assert_relative_close(temp_1_val, net.get_inlet_temperature(1).millikelvin, 0.01);
    assert_relative_close(temp_2_val, net.get_inlet_temperature(2).millikelvin, 0.01);
    assert_relative_close(temp_3_val, net.get_inlet_temperature(0).millikelvin, 0.01);

    // After the commit the old temperatures reflect the new values.
    assert_relative_close(temp_1_val, net.entities[0].outlet_temp_old.millikelvin, 0.01);
    assert_relative_close(temp_2_val, net.entities[1].outlet_temp_old.millikelvin, 0.01);
    assert_relative_close(temp_3_val, net.entities[2].outlet_temp_old.millikelvin, 0.01);

    assert_relative_close(temp_1_val, net.entities[1].inlet_temp_old.millikelvin, 0.01);
    assert_relative_close(temp_2_val, net.entities[2].inlet_temp_old.millikelvin, 0.01);
    assert_relative_close(temp_3_val, net.entities[0].inlet_temp_old.millikelvin, 0.01);
}

#[test]
fn TherminolDowthermPipes_sandbox_autobuild_conenct_and_autocalculation() {
    // The same three-pipe reference scenario, checked against the exact
    // fixed-point results.
    let mut net = three_pipe_ring();
    let (heats, works, flows) = three_pipe_inputs();
    net.step(&heats, &works, &flows).unwrap();

    assert_eq!(net.get_outlet_temperature(0).millikelvin, 305_923);
    assert_eq!(net.get_outlet_temperature(1).millikelvin, 298_815);
    assert_eq!(net.get_outlet_temperature(2).millikelvin, 295_261);

    assert_eq!(net.get_inlet_temperature(0).millikelvin, 295_261);
    assert_eq!(net.get_inlet_temperature(1).millikelvin, 305_923);
    assert_eq!(net.get_inlet_temperature(2).millikelvin, 298_815);

    assert_eq!(net.get_bulk_temperature(0).millikelvin, (295_261 + 305_923) / 2);
    assert_eq!(net.get_bulk_temperature(1).millikelvin, (305_923 + 298_815) / 2);
    assert_eq!(net.get_bulk_temperature(2).millikelvin, (298_815 + 295_261) / 2);

    // Still within 1 percent of the reference values.
    assert_relative_close(305_910, net.get_outlet_temperature(0).millikelvin, 0.01);
    assert_relative_close(298_800, net.get_outlet_temperature(1).millikelvin, 0.01);
    assert_relative_close(295_200, net.get_outlet_temperature(2).millikelvin, 0.01);
}

#[test]
fn connect_is_symmetric() {
    let mut net = ControlVolumeNetwork::new_network(
        Time { millisecond: 100 },
        Temperature { millikelvin: 300_000 },
        dowtherm_a(),
    )
    .unwrap();
    net.add_entity(Volume { cubic_millimetre: 1_000 }).unwrap();
    net.add_entity(Volume { cubic_millimetre: 2_000 }).unwrap();
    net.connect(0, 1);
    assert_eq!(net.get_outlet_neighbor_index(0), Some(1));
    assert_eq!(net.get_inlet_neighbor_index(1), Some(0));
    // The other two directions are still unset.
    assert_eq!(net.get_inlet_neighbor_index(0), None);
    assert_eq!(net.get_outlet_neighbor_index(1), None);
}

#[test]
fn self_loop_is_a_valid_topology() {
    let mut net = ControlVolumeNetwork::new_network(
        Time { millisecond: 100 },
        Temperature { millikelvin: 300_000 },
        dowtherm_a(),
    )
    .unwrap();
    net.add_entity(Volume { cubic_millimetre: 1_000 }).unwrap();
    net.connect(0, 0);
    assert_eq!(net.get_inlet_neighbor_index(0), Some(0));
    assert_eq!(net.get_outlet_neighbor_index(0), Some(0));
    let heats = vec![Power { milliwatt: 50_000 }];
    let works = vec![Power { milliwatt: 0 }];
    let flows = vec![MassRate { milligram_per_second: 180_000 }];
    net.step(&heats, &works, &flows).unwrap();
    assert!(net.get_outlet_temperature(0).millikelvin > 300_000);
}

#[test]
fn step_with_an_unconnected_entity_mutates_nothing() {
    let mut net = ControlVolumeNetwork::new_network(
        Time { millisecond: 100 },
        Temperature { millikelvin: 300_000 },
        dowtherm_a(),
    )
    .unwrap();
    net.add_entity(Volume { cubic_millimetre: 1_000 }).unwrap();
    net.add_entity(Volume { cubic_millimetre: 1_000 }).unwrap();
    // Only one junction is wired; entity 0's inlet and entity 1's outlet
    // stay unset.
    net.connect(0, 1);
    let before: Vec<ControlVolumeEntity> = net.entities.clone();
    let heats = vec![Power { milliwatt: 100_000 }, Power { milliwatt: 0 }];
    let works = vec![Power { milliwatt: 0 }, Power { milliwatt: 0 }];
    let flows = vec![
        MassRate { milligram_per_second: 0 },
        MassRate { milligram_per_second: 0 },
    ];
    let r = net.step(&heats, &works, &flows);
    assert_eq!(r.unwrap_err(), CalculationError::UnconnectedEntity);
    for (a, b) in before.iter().zip(net.entities.iter()) {
        assert_eq!(a.inlet_temp_old.millikelvin, b.inlet_temp_old.millikelvin);
        assert_eq!(a.inlet_temp_new.millikelvin, b.inlet_temp_new.millikelvin);
        assert_eq!(a.outlet_temp_old.millikelvin, b.outlet_temp_old.millikelvin);
        assert_eq!(a.outlet_temp_new.millikelvin, b.outlet_temp_new.millikelvin);
        assert_eq!(a.bulk_temp_old.millikelvin, b.bulk_temp_old.millikelvin);
        assert_eq!(a.bulk_temp_new.millikelvin, b.bulk_temp_new.millikelvin);
        assert_eq!(
            a.bulk_enthalpy_new.millijoule_per_kilogram,
            b.bulk_enthalpy_new.millijoule_per_kilogram
        );
        assert_eq!(a.inlet_neighbor_index, b.inlet_neighbor_index);
        assert_eq!(a.outlet_neighbor_index, b.outlet_neighbor_index);
    }
}

#[test]
fn step_that_leaves_the_fluid_range_is_refused_without_mutation() {
    let mut net = three_pipe_ring();
    // Draining 10 kW from a gram of fluid for 0.1 s empties its enthalpy
    // range: the step must fail fast instead of extrapolating.
    let heats = vec![
        Power { milliwatt: -100_000_000 },
        Power { milliwatt: 0 },
        Power { milliwatt: 0 },
    ];
    let works = vec![
        Power { milliwatt: 0 },
        Power { milliwatt: 0 },
        Power { milliwatt: 0 },
    ];
    let flows = vec![
        MassRate { milligram_per_second: 180_000 },
        MassRate { milligram_per_second: 180_000 },
        MassRate { milligram_per_second: 180_000 },
    ];
    let before_outlet = net.get_outlet_temperature(0).millikelvin;
    let r = net.step(&heats, &works, &flows);
    assert_eq!(r.unwrap_err(), CalculationError::OutOfRange);
    assert_eq!(net.get_outlet_temperature(0).millikelvin, before_outlet);
}

#[test]
fn add_entity_refuses_a_degenerate_volume() {
    let mut net = ControlVolumeNetwork::new_network(
        Time { millisecond: 100 },
        Temperature { millikelvin: 300_000 },
        dowtherm_a(),
    )
    .unwrap();
    let r = net.add_entity(Volume { cubic_millimetre: 0 });
    assert_eq!(r.unwrap_err(), CalculationError::OutOfRange);
    assert_eq!(net.number_of_entities(), 0);
}

#[test]
fn new_network_refuses_an_invalid_start() {
    let freezing = ControlVolumeNetwork::new_network(
        Time { millisecond: 100 },
        Temperature { millikelvin: 100_000 },
        dowtherm_a(),
    );
    assert_eq!(freezing.unwrap_err(), CalculationError::OutOfRange);
    let no_time = ControlVolumeNetwork::new_network(
        Time { millisecond: 0 },
        Temperature { millikelvin: 300_000 },
        dowtherm_a(),
    );
    assert_eq!(no_time.unwrap_err(), CalculationError::OutOfRange);
}

#[test]
fn commit_timestep_twice_changes_nothing() {
    let f = dowtherm_a();
    let mut e = ControlVolumeEntity::create(
        Time { millisecond: 100 },
        Temperature { millikelvin: 300_000 },
        Volume { cubic_millimetre: 1_000 },
        0,
        &f,
    )
    .unwrap();
    e.set_inlet_temperature_new(Temperature { millikelvin: 305_923 });
    e.set_outlet_temperature_new(Temperature { millikelvin: 298_815 });
    e.commit_timestep();
    let first = e;
    e.commit_timestep();
    assert_eq!(first.inlet_temp_old.millikelvin, e.inlet_temp_old.millikelvin);
    assert_eq!(first.inlet_temp_new.millikelvin, e.inlet_temp_new.millikelvin);
    assert_eq!(first.outlet_temp_old.millikelvin, e.outlet_temp_old.millikelvin);
    assert_eq!(first.outlet_temp_new.millikelvin, e.outlet_temp_new.millikelvin);
    assert_eq!(first.bulk_temp_old.millikelvin, e.bulk_temp_old.millikelvin);
    assert_eq!(first.bulk_temp_new.millikelvin, e.bulk_temp_new.millikelvin);
    // The seed bulk temperature is the midpoint of the committed pair.
    assert_eq!(e.bulk_temp_old.millikelvin, (305_923 + 298_815) / 2);
}

fn ring_energy_content(
    entities: &[ControlVolumeEntity],
    fluid: &heat_transfer_rust::fluid::FluidModel,
) -> (i128, i128) {
    // Returns (sum of mass * outlet specific enthalpy, sum of mass), with
    // the mass evaluated as the step evaluates it: density at the midpoint
    // of the old inlet and outlet temperatures times the volume.
    let mut energy: i128 = 0;
    let mut mass_sum: i128 = 0;
    for e in entities {
        let avg = Temperature {
            millikelvin: (e.inlet_temp_old.millikelvin + e.outlet_temp_old.millikelvin) / 2,
        };
        let rho = fluid.density(avg).unwrap().gram_per_cubic_metre as i128;
        let mass = rho * (e.fluid_volume.cubic_millimetre as i128);
        let h = fluid.enthalpy(e.outlet_temp_old).unwrap().millijoule_per_kilogram as i128;
        energy += mass * h;
        mass_sum += mass;
    }
    (energy, mass_sum)
}

#[test]
fn closed_ring_conserves_energy_over_one_step() {
    // Heat the ring unevenly once, then run a step with zero heat and
    // work: the rounded post-step energy content never exceeds the
    // pre-step content and falls short by less than one enthalpy grid
    // unit per unit of mass.
    let mut net = three_pipe_ring();
    let (heats, works, flows) = three_pipe_inputs();
    net.step(&heats, &works, &flows).unwrap();

    let fluid = net.fluid;
    let before_entities: Vec<ControlVolumeEntity> = net.entities.clone();
    let (energy_before, mass_sum) = ring_energy_content(&before_entities, &fluid);

    // A gentler circulation keeps the explicit scheme inside the fluid's
    // range over repeated steps (the reference flow's timestep-to-residence
    // ratio is far too large for more than the one reference step).
    let gentle = vec![
        MassRate { milligram_per_second: 1_800 },
        MassRate { milligram_per_second: 1_800 },
        MassRate { milligram_per_second: 1_800 },
    ];
    let zero = vec![
        Power { milliwatt: 0 },
        Power { milliwatt: 0 },
        Power { milliwatt: 0 },
    ];
    net.step(&zero, &zero, &gentle).unwrap();

    // The step's own masses times the new bulk specific enthalpies.
    let mut energy_after: i128 = 0;
    for (pre, post) in before_entities.iter().zip(net.entities.iter()) {
        let avg = Temperature {
            millikelvin: (pre.inlet_temp_old.millikelvin + pre.outlet_temp_old.millikelvin) / 2,
        };
        let rho = fluid.density(avg).unwrap().gram_per_cubic_metre as i128;
        let mass = rho * (pre.fluid_volume.cubic_millimetre as i128);
        energy_after += mass * (post.bulk_enthalpy_new.millijoule_per_kilogram as i128);
    }
    assert!(energy_after <= energy_before);
    assert!(energy_before - energy_after < mass_sum);
}

#[test]
fn closed_ring_energy_drifts_only_within_tolerance_over_many_steps() {
    let mut net = three_pipe_ring();
    let (heats, works, flows) = three_pipe_inputs();
    net.step(&heats, &works, &flows).unwrap();

    let fluid = net.fluid;
    let (initial_energy, _) = ring_energy_content(&net.entities, &fluid);

    let gentle = vec![
        MassRate { milligram_per_second: 1_800 },
        MassRate { milligram_per_second: 1_800 },
        MassRate { milligram_per_second: 1_800 },
    ];
    let zero = vec![
        Power { milliwatt: 0 },
        Power { milliwatt: 0 },
        Power { milliwatt: 0 },
    ];
    for _ in 0..50 {
        net.step(&zero, &zero, &gentle).unwrap();
    }
    let (final_energy, _) = ring_energy_content(&net.entities, &fluid);
    let drift = (final_energy - initial_energy).abs() as f64;
    assert!(drift <= 0.01 * (initial_energy as f64));
}
