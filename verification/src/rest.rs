//! The simplest stable configuration: a fluid at rest, without gravity.

use vstd::prelude::*;
use crate::advection::advected;
use crate::fixed::{clamp, Vec3};
use crate::grid::{all_inside, classified, inside, unit, GridDims, Marker};
use crate::particles::Particle;
use crate::projection::{
    all_zero, divergence_field, face_velocity, lemma_no_divergence_no_pressure,
    lemma_pressure_at_zero,
};
use crate::solver::{
    forced_field, projected_field, scattered_field, step_divergence, step_pressure,
    stepped_particles,
};
use crate::transfer::{
    clamped_sample, corner, frac, gathered, gathered_component, interpolate, lerp_weight,
    momentum_sum, sample_offset, scattered_weight, weight,
};

verus! {

/// Whether no particle moves.
pub open spec fn all_at_rest(particles: Seq<Particle>) -> bool {
    forall|q: int|
        0 <= q < particles.len() ==> (#[trigger] particles[q]).velocity == (Vec3 {
            x: 0,
            y: 0,
            z: 0,
        })
}

/// No gravity.
pub open spec fn no_gravity() -> Vec3 {
    Vec3 { x: 0, y: 0, z: 0 }
}

proof fn lemma_no_momentum(particles: Seq<Particle>, upto: int, axis: int, i: int, j: int, k: int)
    requires
        0 <= upto <= particles.len(),
        all_at_rest(particles),
    ensures
        momentum_sum(particles, upto, axis, i, j, k) == 0,
    decreases upto,
{
    if upto > 0 {
        lemma_no_momentum(particles, upto - 1, axis, i, j, k);
        let p = particles[upto - 1];
        let w = weight(p, axis, i, j, k);
        assert(p.velocity.component(axis) == 0);
        assert(w * 0 == 0) by (nonlinear_arith);
    }
}

proof fn lemma_zero_field_reads_zero(dims: GridDims, field: Seq<i64>, axis: int, pos: Vec3)
    requires
        dims.valid(),
        0 <= axis < 3,
        field.len() == dims.num_samples(),
        all_zero(field),
    ensures
        interpolate(dims, field, axis, pos) == 0,
{
    assert forall|i: int, j: int, k: int| #[trigger] clamped_sample(dims, field, axis, i, j, k)
        == 0 by {
        let ci = clamp(i, 0, dims.nx + unit(axis, 0) - 1);
        let cj = clamp(j, 0, dims.ny + unit(axis, 1) - 1);
        let ck = clamp(k, 0, dims.nz + unit(axis, 2) - 1);
        dims.lemma_sample_index(axis, ci, cj, ck);
    }
    assert forall|dx: int, dy: int, dz: int| #[trigger] corner(dims, field, axis, pos, dx, dy, dz)
        == 0 by {
        let a = lerp_weight(
            frac(pos.x as int, sample_offset(axis, 0)),
            dx,
        );
        let b = lerp_weight(
            frac(pos.y as int, sample_offset(axis, 1)),
            dy,
        );
        let c = lerp_weight(
            frac(pos.z as int, sample_offset(axis, 2)),
            dz,
        );
        assert(a * b * c * 0 == 0) by (nonlinear_arith);
    }
}

/// A fluid at rest without gravity stays exactly as it is: one step leaves
/// every particle where it was and at rest, the grid velocity zero in every
/// sample, and no divergence in any cell, whatever the number of sweeps.
pub proof fn lemma_rest_is_stable(
    dims: GridDims,
    dt_ns: u64,
    sweeps: u32,
    particles: Seq<Particle>,
)
    requires
        dims.valid(),
        all_inside(dims, particles),
        all_at_rest(particles),
    ensures
        stepped_particles(dims, no_gravity(), dt_ns, sweeps, particles) == particles,
        all_zero(projected_field(dims, no_gravity(), dt_ns, sweeps, particles)),
        all_zero(
            divergence_field(
                dims,
                classified(dims, particles),
                projected_field(dims, no_gravity(), dt_ns, sweeps, particles),
            ),
        ),
{
    let g = no_gravity();
    let markers = classified(dims, particles);
    let before = scattered_field(dims, particles);
    let forced = forced_field(dims, g, dt_ns, particles);
    let divergence = step_divergence(dims, g, dt_ns, particles);
    let pressure = step_pressure(dims, g, dt_ns, sweeps, particles);
    let after = projected_field(dims, g, dt_ns, sweeps, particles);
    let n = dims.num_samples();
    assert forall|s: int| 0 <= s < n implies #[trigger] before[s] == 0 by {
        lemma_no_momentum(
            particles,
            particles.len() as int,
            dims.sample_axis(s),
            dims.sample_i(s),
            dims.sample_j(s),
            dims.sample_k(s),
        );
        let w = scattered_weight(dims, particles, s);
        if w > 0 {
            assert(0int / w == 0) by (nonlinear_arith)
                requires
                    w > 0,
            ;
        }
    }
    assert forall|s: int| 0 <= s < n implies #[trigger] forced[s] == 0 by {
        assert(before[s] == 0);
        assert(0 * (dt_ns as int) == 0) by (nonlinear_arith);
    }
    lemma_zero_divergence(dims, markers, forced);
    lemma_no_divergence_no_pressure(dims, markers, divergence, sweeps as nat);
    assert forall|s: int| 0 <= s < n implies #[trigger] after[s] == 0 by {
        assert(forced[s] == 0);
        let (i, j, k) = (dims.sample_i(s), dims.sample_j(s), dims.sample_k(s));
        let axis = dims.sample_axis(s);
        lemma_pressure_at_zero(dims, markers, pressure, i, j, k);
        lemma_pressure_at_zero(
            dims,
            markers,
            pressure,
            i - unit(axis, 0),
            j - unit(axis, 1),
            k - unit(axis, 2),
        );
    }
    lemma_zero_divergence(dims, markers, after);
    let next = stepped_particles(dims, g, dt_ns, sweeps, particles);
    assert forall|q: int| 0 <= q < particles.len() implies #[trigger] next[q] == particles[q] by {
        let p = particles[q];
        assert(inside(dims, p.position));
        lemma_zero_field_reads_zero(dims, before, 0, p.position);
        lemma_zero_field_reads_zero(dims, before, 1, p.position);
        lemma_zero_field_reads_zero(dims, before, 2, p.position);
        lemma_zero_field_reads_zero(dims, after, 0, p.position);
        lemma_zero_field_reads_zero(dims, after, 1, p.position);
        lemma_zero_field_reads_zero(dims, after, 2, p.position);
        assert(p.velocity.component(0) == 0 && p.velocity.component(1) == 0
            && p.velocity.component(2) == 0);
        assert(gathered_component(dims, before, after, p, 0) == 0);
        assert(gathered_component(dims, before, after, p, 1) == 0);
        assert(gathered_component(dims, before, after, p, 2) == 0);
        let moved = gathered(dims, before, after, p);
        assert(moved == p);
        assert(0 * (dt_ns as int) == 0) by (nonlinear_arith);
        assert(advected(dims, dt_ns as int, moved) == p);
    }
    assert(next =~= particles);
}

proof fn lemma_zero_divergence(dims: GridDims, markers: Seq<Marker>, velocity: Seq<i64>)
    requires
        dims.valid(),
        markers.len() == dims.num_cells(),
        velocity.len() == dims.num_samples(),
        all_zero(velocity),
    ensures
        all_zero(divergence_field(dims, markers, velocity)),
        divergence_field(dims, markers, velocity).len() == dims.num_cells(),
{
    assert forall|axis: int, i: int, j: int, k: int|
        0 <= axis < 3 && dims.node_in(i, j, k) implies #[trigger] face_velocity(
        dims,
        markers,
        velocity,
        axis,
        i,
        j,
        k,
    ) == 0 by {
        dims.lemma_sample_index(axis, i, j, k);
    }
    let field = divergence_field(dims, markers, velocity);
    assert forall|m: int| 0 <= m < field.len() implies #[trigger] field[m] == 0 by {
        dims.lemma_cell_coords(m);
    }
}

} // verus!
