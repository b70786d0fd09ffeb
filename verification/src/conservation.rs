//! Energy bookkeeping of a closed ring.
//!
//! A ring is the topology built by connecting entity `i`'s outlet to entity
//! `i + 1`'s inlet for every `i`, and the last entity's outlet back to
//! entity `0`.  On such a network, with zero external heat and work input
//! and one common mass flow rate, one whole step conserves the energy
//! content `sum over i of mass_i * h_i`: the enthalpy carried out of each
//! volume is exactly the enthalpy carried into the next one, so the flow
//! terms cancel around the ring.  The only loss of exactness is the
//! rounding of each new specific enthalpy down to the mJ/kg grid, which
//! costs less than one grid unit per unit of mass.

use vstd::prelude::*;
use vstd::arithmetic::div_mod::{lemma_fundamental_div_mod, lemma_mod_bound};
use vstd::arithmetic::mul::lemma_mul_is_associative;

use crate::units::{Power, MassRate};
use crate::network::ControlVolumeNetwork;
use crate::entity::lemma_after_compute_wf;
use crate::fluid::lemma_temperature_enthalpy_round_trip;

verus! {

/// Index of the entity upstream of `i` in a ring of `n` entities.
pub open spec fn ring_prev(n: int, i: int) -> int {
    if i == 0 {
        n - 1
    } else {
        i - 1
    }
}

/// Index of the entity downstream of `i` in a ring of `n` entities.
pub open spec fn ring_next(n: int, i: int) -> int {
    if i == n - 1 {
        0
    } else {
        i + 1
    }
}

/// The network is wired as one closed ring in index order: each entity's
/// outlet feeds the next entity's inlet, and the last feeds the first.
pub open spec fn ring_topology(net: ControlVolumeNetwork) -> bool {
    let n = net.entities@.len() as int;
    &&& n >= 1
    &&& forall|i: int|
        0 <= i < n ==> (#[trigger] net.entities@[i].outlet_neighbor_index) == Some(
            ring_next(n, i) as usize,
        )
    &&& forall|i: int|
        0 <= i < n ==> (#[trigger] net.entities@[i].inlet_neighbor_index) == Some(
            ring_prev(n, i) as usize,
        )
}

/// Every entity's old inlet temperature agrees with its upstream
/// neighbor's old outlet temperature.  This holds of a freshly built ring
/// (all temperatures uniform) and is preserved by every successful step.
pub open spec fn ring_consistent(net: ControlVolumeNetwork) -> bool {
    let n = net.entities@.len() as int;
    forall|i: int|
        0 <= i < n ==> (#[trigger] net.entities@[i].inlet_temp_old) == net.entities@[
            ring_prev(n, i)
        ].outlet_temp_old
}

/// The mass the step fixes for entity `i`: density at the re-averaged bulk
/// temperature times the fluid volume.
pub open spec fn step_mass(net: ControlVolumeNetwork, i: int) -> int {
    net.pass1_at(i).spec_mass(net.fluid)
}

/// Specific enthalpy at entity `i`'s old inlet temperature.
pub open spec fn inlet_enthalpy(net: ControlVolumeNetwork, i: int) -> int {
    net.fluid.spec_enthalpy(net.entities@[i].inlet_temp_old.millikelvin as int)
}

/// Specific enthalpy at entity `i`'s old outlet temperature: under the
/// well-mixed assumption this is the control volume's specific enthalpy
/// before the step.
pub open spec fn outlet_enthalpy(net: ControlVolumeNetwork, i: int) -> int {
    net.fluid.spec_enthalpy(net.entities@[i].outlet_temp_old.millikelvin as int)
}

/// Sum of the step masses of entities `0 .. k`.
pub open spec fn total_mass(net: ControlVolumeNetwork, k: int) -> int
    decreases k,
{
    if k <= 0 {
        0
    } else {
        total_mass(net, k - 1) + step_mass(net, k - 1)
    }
}

/// Energy content before the step: sum over entities `0 .. k` of mass
/// times outlet (= bulk) specific enthalpy.
pub open spec fn energy_before(net: ControlVolumeNetwork, k: int) -> int
    decreases k,
{
    if k <= 0 {
        0
    } else {
        energy_before(net, k - 1) + step_mass(net, k - 1) * outlet_enthalpy(net, k - 1)
    }
}

/// Sum over entities `0 .. k` of the specific enthalpy entering each
/// inlet.
pub open spec fn total_inlet_enthalpy(net: ControlVolumeNetwork, k: int) -> int
    decreases k,
{
    if k <= 0 {
        0
    } else {
        total_inlet_enthalpy(net, k - 1) + inlet_enthalpy(net, k - 1)
    }
}

/// Sum over entities `0 .. k` of the specific enthalpy leaving each
/// outlet.
pub open spec fn total_outlet_enthalpy(net: ControlVolumeNetwork, k: int) -> int
    decreases k,
{
    if k <= 0 {
        0
    } else {
        total_outlet_enthalpy(net, k - 1) + outlet_enthalpy(net, k - 1)
    }
}

/// Sum over entities `0 .. k` of the exact (pre-rounding) total enthalpy
/// each energy balance produces.
pub open spec fn exact_energy_after(
    net: ControlVolumeNetwork,
    k: int,
    heat: Seq<Power>,
    work: Seq<Power>,
    mflow: Seq<MassRate>,
) -> int
    decreases k,
{
    if k <= 0 {
        0
    } else {
        exact_energy_after(net, k - 1, heat, work, mflow) + net.pass1_at(
            k - 1,
        ).spec_new_total_enthalpy(
            net.fluid,
            heat[k - 1].milliwatt as int,
            work[k - 1].milliwatt as int,
            net.timestep.millisecond as int,
            mflow[k - 1].milligram_per_second as int,
        )
    }
}

/// Energy content after the step: sum over entities `0 .. k` of mass times
/// the new (grid-rounded) bulk specific enthalpy.
pub open spec fn energy_after(
    net: ControlVolumeNetwork,
    k: int,
    heat: Seq<Power>,
    work: Seq<Power>,
    mflow: Seq<MassRate>,
) -> int
    decreases k,
{
    if k <= 0 {
        0
    } else {
        energy_after(net, k - 1, heat, work, mflow) + step_mass(net, k - 1)
            * net.new_bulk_enthalpy_at(k - 1, heat, work, mflow)
    }
}

/// One step of the split: adding one balance term to a sum that already
/// splits keeps it split.
proof fn lemma_split_step(
    prev_exact: int,
    prev_before: int,
    prev_in: int,
    prev_out: int,
    c: int,
    mass: int,
    hin: int,
    hout: int,
)
    by (nonlinear_arith)
    requires
        prev_exact == prev_before + c * (prev_in - prev_out),
    ensures
        prev_exact + (mass * hout + c * (hin - hout)) == (prev_before + mass * hout) + c * ((
        prev_in + hin) - (prev_out + hout)),
{
}

/// One step of the rounding bracket: adding one exactly bracketed term
/// keeps the sums bracketed.
proof fn lemma_bracket_step(
    prev_exact: int,
    prev_after: int,
    prev_tm: int,
    mass: int,
    q: int,
    total: int,
)
    requires
        prev_after <= prev_exact,
        prev_exact <= prev_after + prev_tm,
        mass * q <= total,
        total < mass * q + mass,
    ensures
        prev_after + mass * q <= prev_exact + total,
        prev_exact + total < (prev_after + mass * q) + (prev_tm + mass),
{
}

/// The stored i64 enthalpy fields of a pass-one entity carry exactly the
/// mathematical specific enthalpies of its old temperatures.
proof fn lemma_stored_enthalpies_exact(net: ControlVolumeNetwork, i: int)
    requires
        net.wf(),
        0 <= i < net.entities@.len(),
    ensures
        net.pass1_at(i).inlet_enthalpy_old.millijoule_per_kilogram as int == inlet_enthalpy(
            net,
            i,
        ),
        net.pass1_at(i).outlet_enthalpy_old.millijoule_per_kilogram as int == outlet_enthalpy(
            net,
            i,
        ),
{
    assert(net.entity_wf_at(i));
    let f = net.fluid;
    let cp = f.specific_heat as int;
    let span = f.max_temperature.millikelvin - f.min_temperature.millikelvin;
    assert(cp * span <= 100_000_000_000) by (nonlinear_arith)
        requires
            0 <= cp <= 100_000,
            0 <= span <= 1_000_000,
    ;
    lemma_temperature_enthalpy_round_trip(f, net.entities@[i].inlet_temp_old.millikelvin as int);
    lemma_temperature_enthalpy_round_trip(f, net.entities@[i].outlet_temp_old.millikelvin as int);
}

/// With zero heat and work input and one common mass flow rate, the exact
/// post-balance energy splits into the pre-step energy content plus the
/// flow coefficient times the difference of inlet and outlet enthalpy
/// sums.
proof fn lemma_exact_energy_splits(
    net: ControlVolumeNetwork,
    k: int,
    heat: Seq<Power>,
    work: Seq<Power>,
    mflow: Seq<MassRate>,
)
    requires
        net.wf(),
        0 <= k <= net.entities@.len(),
        net.inputs_ok(heat, work, mflow),
        forall|i: int|
            0 <= i < net.entities@.len() ==> (#[trigger] heat[i]).milliwatt == 0 && work[
                i
            ].milliwatt == 0,
        forall|i: int|
            0 <= i < net.entities@.len() ==> (#[trigger] mflow[i]).milligram_per_second == mflow[
                0
            ].milligram_per_second,
    ensures
        exact_energy_after(net, k, heat, work, mflow) == energy_before(net, k) + (1000 * (
        net.timestep.millisecond as int) * (mflow[0].milligram_per_second as int)) * (
        total_inlet_enthalpy(net, k) - total_outlet_enthalpy(net, k)),
    decreases k,
{
    let dt = net.timestep.millisecond as int;
    let m = mflow[0].milligram_per_second as int;
    let a = 1000 * dt;
    let c = a * m;
    if k <= 0 {
        assert(exact_energy_after(net, k, heat, work, mflow) == 0);
        assert(energy_before(net, k) == 0);
        assert(total_inlet_enthalpy(net, k) == 0);
        assert(total_outlet_enthalpy(net, k) == 0);
        assert(c * (0int - 0int) == 0) by (nonlinear_arith);
    } else {
        lemma_exact_energy_splits(net, k - 1, heat, work, mflow);
        lemma_stored_enthalpies_exact(net, k - 1);
        let hin = inlet_enthalpy(net, k - 1);
        let hout = outlet_enthalpy(net, k - 1);
        let term = net.pass1_at(k - 1).spec_new_total_enthalpy(
            net.fluid,
            heat[k - 1].milliwatt as int,
            work[k - 1].milliwatt as int,
            dt,
            m,
        );
        assert(term == step_mass(net, k - 1) * hout + a * (m * (hin - hout)));
        lemma_mul_is_associative(a, m, hin - hout);
        assert(term == step_mass(net, k - 1) * hout + c * (hin - hout));
        lemma_split_step(
            exact_energy_after(net, k - 1, heat, work, mflow),
            energy_before(net, k - 1),
            total_inlet_enthalpy(net, k - 1),
            total_outlet_enthalpy(net, k - 1),
            c,
            step_mass(net, k - 1),
            hin,
            hout,
        );
        assert(exact_energy_after(net, k, heat, work, mflow) == exact_energy_after(
            net,
            k - 1,
            heat,
            work,
            mflow,
        ) + term);
        assert(energy_before(net, k) == energy_before(net, k - 1) + step_mass(net, k - 1) * hout);
        assert(total_inlet_enthalpy(net, k) == total_inlet_enthalpy(net, k - 1) + hin);
        assert(total_outlet_enthalpy(net, k) == total_outlet_enthalpy(net, k - 1) + hout);
    }
}

/// Around a consistent ring, the enthalpies entering the inlets are a
/// rotation of the enthalpies leaving the outlets, so for `1 <= k <= n`
/// the inlet sum equals the last outlet enthalpy plus the outlet sum one
/// entity shorter.
#[verifier::rlimit(100)]
#[verifier::spinoff_prover]
proof fn lemma_inlet_sum_rotates(net: ControlVolumeNetwork, k: int)
    requires
        net.wf(),
        ring_topology(net),
        ring_consistent(net),
        1 <= k <= net.entities@.len(),
    ensures
        total_inlet_enthalpy(net, k) == outlet_enthalpy(
            net,
            net.entities@.len() as int - 1,
        ) + total_outlet_enthalpy(net, k - 1),
    decreases k,
{
    let n = net.entities@.len() as int;
    assert(net.entities@[k - 1].inlet_temp_old == net.entities@[ring_prev(n, k - 1)].outlet_temp_old);
    assert(total_inlet_enthalpy(net, k) == total_inlet_enthalpy(net, k - 1) + inlet_enthalpy(
        net,
        k - 1,
    ));
    if k == 1 {
        assert(inlet_enthalpy(net, 0) == outlet_enthalpy(net, n - 1));
        assert(total_inlet_enthalpy(net, 0) == 0);
        assert(total_outlet_enthalpy(net, 0) == 0);
    } else {
        lemma_inlet_sum_rotates(net, k - 1);
        assert(inlet_enthalpy(net, k - 1) == outlet_enthalpy(net, k - 2));
        assert(total_outlet_enthalpy(net, k - 1) == total_outlet_enthalpy(net, k - 2)
            + outlet_enthalpy(net, k - 2));
    }
}

/// Around a consistent ring the inlet and outlet enthalpy sums are equal.
proof fn lemma_ring_enthalpy_sums_equal(net: ControlVolumeNetwork)
    requires
        net.wf(),
        ring_topology(net),
        ring_consistent(net),
    ensures
        total_inlet_enthalpy(net, net.entities@.len() as int) == total_outlet_enthalpy(
            net,
            net.entities@.len() as int,
        ),
{
    let n = net.entities@.len() as int;
    lemma_inlet_sum_rotates(net, n);
}

/// Rounding each new specific enthalpy down to the grid costs less than
/// one grid unit per unit of mass: the rounded energy sum is bracketed by
/// the exact one.
#[verifier::rlimit(100)]
proof fn lemma_rounding_bracket(
    net: ControlVolumeNetwork,
    k: int,
    heat: Seq<Power>,
    work: Seq<Power>,
    mflow: Seq<MassRate>,
)
    requires
        net.wf(),
        0 <= k <= net.entities@.len(),
        net.inputs_ok(heat, work, mflow),
        net.all_advance_ok(heat, work, mflow),
    ensures
        energy_after(net, k, heat, work, mflow) <= exact_energy_after(net, k, heat, work, mflow),
        exact_energy_after(net, k, heat, work, mflow) <= energy_after(net, k, heat, work, mflow)
            + total_mass(net, k),
        k >= 1 ==> exact_energy_after(net, k, heat, work, mflow) < energy_after(
            net,
            k,
            heat,
            work,
            mflow,
        ) + total_mass(net, k),
    decreases k,
{
    if k <= 0 {
    } else {
        lemma_rounding_bracket(net, k - 1, heat, work, mflow);
        assert(net.entity_wf_at(k - 1));
        assert(net.advance_ok_at(k - 1, heat, work, mflow));
        lemma_after_compute_wf(net.entities@[k - 1], net.fluid);
        let mass = step_mass(net, k - 1);
        let total = net.pass1_at(k - 1).spec_new_total_enthalpy(
            net.fluid,
            heat[k - 1].milliwatt as int,
            work[k - 1].milliwatt as int,
            net.timestep.millisecond as int,
            mflow[k - 1].milligram_per_second as int,
        );
        lemma_fundamental_div_mod(total, mass);
        lemma_mod_bound(total, mass);
        assert(net.new_bulk_enthalpy_at(k - 1, heat, work, mflow) == total / mass);
        assert(mass * (total / mass) <= total < mass * (total / mass) + mass);
        lemma_bracket_step(
            exact_energy_after(net, k - 1, heat, work, mflow),
            energy_after(net, k - 1, heat, work, mflow),
            total_mass(net, k - 1),
            mass,
            total / mass,
            total,
        );
        assert(energy_after(net, k, heat, work, mflow) == energy_after(net, k - 1, heat, work, mflow)
            + mass * (total / mass));
        assert(exact_energy_after(net, k, heat, work, mflow) == exact_energy_after(
            net,
            k - 1,
            heat,
            work,
            mflow,
        ) + total);
        assert(total_mass(net, k) == total_mass(net, k - 1) + mass);
    }
}

/// Energy conservation on a closed ring.
///
/// For a well-formed network wired as one closed ring, in a
/// ring-consistent state, with zero heat and work input everywhere and one
/// common mass flow rate, a successful step leaves the energy content
/// `sum over i of mass_i * h_i` unchanged to within the grid rounding:
/// the post-step sum (over the new bulk specific enthalpies) never exceeds
/// the pre-step sum (over the outlet specific enthalpies, which are the
/// bulk enthalpies under the well-mixed assumption), and falls short of it
/// by less than one mJ/kg per nanogram of fluid.
#[verifier::rlimit(100)]
pub proof fn lemma_energy_conservation_closed_ring(
    net: ControlVolumeNetwork,
    heat: Seq<Power>,
    work: Seq<Power>,
    mflow: Seq<MassRate>,
)
    requires
        net.wf(),
        ring_topology(net),
        ring_consistent(net),
        net.inputs_ok(heat, work, mflow),
        forall|i: int|
            0 <= i < net.entities@.len() ==> (#[trigger] heat[i]).milliwatt == 0 && work[
                i
            ].milliwatt == 0,
        forall|i: int|
            0 <= i < net.entities@.len() ==> (#[trigger] mflow[i]).milligram_per_second == mflow[
                0
            ].milligram_per_second,
        net.all_advance_ok(heat, work, mflow),
    ensures
        energy_after(net, net.entities@.len() as int, heat, work, mflow) <= energy_before(
            net,
            net.entities@.len() as int,
        ),
        energy_before(net, net.entities@.len() as int) < energy_after(
            net,
            net.entities@.len() as int,
            heat,
            work,
            mflow,
        ) + total_mass(net, net.entities@.len() as int),
{
    let n = net.entities@.len() as int;
    lemma_exact_energy_splits(net, n, heat, work, mflow);
    lemma_ring_enthalpy_sums_equal(net);
    lemma_rounding_bracket(net, n, heat, work, mflow);
    let c = 1000 * (net.timestep.millisecond as int) * (mflow[0].milligram_per_second as int);
    let x = total_inlet_enthalpy(net, n) - total_outlet_enthalpy(net, n);
    assert(x == 0);
    assert(c * x == 0) by (nonlinear_arith)
        requires
            x == 0,
    ;
    assert(exact_energy_after(net, n, heat, work, mflow) == energy_before(net, n));
}

/// A freshly built ring is ring consistent: every entity still carries
/// the one uniform initial temperature, so each inlet trivially agrees
/// with its upstream outlet.
pub proof fn lemma_uniform_ring_is_consistent(net: ControlVolumeNetwork, t0: int)
    requires
        forall|i: int|
            0 <= i < net.entities@.len() ==> (#[trigger] net.entities@[i].inlet_temp_old).millikelvin
                == t0,
        forall|i: int|
            0 <= i < net.entities@.len() ==> (#[trigger] net.entities@[i].outlet_temp_old).millikelvin
                == t0,
    ensures
        ring_consistent(net),
{
}

/// A successful step on a closed ring leaves the topology a closed ring
/// and restores ring consistency: each entity's promoted inlet temperature
/// is exactly the table entry of its upstream neighbor, which is that
/// neighbor's promoted outlet temperature.
pub proof fn lemma_step_preserves_ring(
    pre: ControlVolumeNetwork,
    post: ControlVolumeNetwork,
    heat: Seq<Power>,
    work: Seq<Power>,
    mflow: Seq<MassRate>,
)
    requires
        pre.wf(),
        ring_topology(pre),
        pre.entities@.len() <= usize::MAX,
        pre.inputs_ok(heat, work, mflow),
        pre.all_advance_ok(heat, work, mflow),
        post.entities@.len() == pre.entities@.len(),
        forall|i: int|
            0 <= i < pre.entities@.len() ==> (#[trigger] post.entities@[i]) == pre.entity_after_step(
                i,
                heat,
                work,
                mflow,
            ),
    ensures
        ring_topology(post),
        ring_consistent(post),
{
    let n = pre.entities@.len() as int;
    assert forall|i: int| 0 <= i < n implies (#[trigger] post.entities@[i]).outlet_neighbor_index
        == Some(ring_next(n, i) as usize) && post.entities@[i].inlet_neighbor_index == Some(
        ring_prev(n, i) as usize,
    ) by {
        assert(post.entities@[i] == pre.entity_after_step(i, heat, work, mflow));
    }
    assert forall|i: int| 0 <= i < n implies (#[trigger] post.entities@[i]).inlet_temp_old
        == post.entities@[ring_prev(n, i)].outlet_temp_old by {
        let p = ring_prev(n, i);
        assert(0 <= p < n);
        assert((p as usize) as int == p);
        assert(pre.upstream_of(i) == p);
        assert(post.entities@[i] == pre.entity_after_step(i, heat, work, mflow));
        assert(post.entities@[p] == pre.entity_after_step(p, heat, work, mflow));
    }
}

} // verus!
