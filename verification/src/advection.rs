//! Advection: every particle moves with its own velocity for one timestep
//! and is kept inside the grid.

use vstd::prelude::*;
use crate::fixed::{clamp, div_toward_zero, trunc_div, Vec3, ONE, VEL_MAX};
use crate::grid::{all_inside, inside, GridDims};
use crate::particles::Particle;
use crate::scheduler::NANOS_PER_SECOND;
use crate::transfer::velocities_bounded;

verus! {

/// Where a coordinate would be after one timestep with no walls.
pub open spec fn displaced(x: int, v: int, dt_ns: int) -> int {
    x + trunc_div(v * dt_ns, NANOS_PER_SECOND as int)
}

/// The last coordinate inside a grid of `n` cells along an axis.
pub open spec fn last_inside(n: int) -> int {
    n * ONE - 1
}

/// A coordinate after one timestep: moved, then held inside the walls.
pub open spec fn advected_coord(x: int, v: int, dt_ns: int, n: int) -> int {
    clamp(displaced(x, v, dt_ns), 1, last_inside(n))
}

/// A velocity component after one timestep: zero if a wall stopped the
/// particle along this axis, unchanged otherwise.
pub open spec fn advected_speed(x: int, v: int, dt_ns: int, n: int) -> int {
    if 1 <= displaced(x, v, dt_ns) <= last_inside(n) {
        v
    } else {
        0
    }
}

/// A particle after advection.
pub open spec fn advected(dims: GridDims, dt_ns: int, p: Particle) -> Particle {
    Particle {
        position: Vec3 {
            x: advected_coord(p.position.x as int, p.velocity.x as int, dt_ns, dims.nx as int) as i64,
            y: advected_coord(p.position.y as int, p.velocity.y as int, dt_ns, dims.ny as int) as i64,
            z: advected_coord(p.position.z as int, p.velocity.z as int, dt_ns, dims.nz as int) as i64,
        },
        velocity: Vec3 {
            x: advected_speed(p.position.x as int, p.velocity.x as int, dt_ns, dims.nx as int) as i64,
            y: advected_speed(p.position.y as int, p.velocity.y as int, dt_ns, dims.ny as int) as i64,
            z: advected_speed(p.position.z as int, p.velocity.z as int, dt_ns, dims.nz as int) as i64,
        },
    }
}

fn advect_axis(x: i64, v: i64, dt_ns: u64, n: u32) -> (r: (i64, i64))
    requires
        1 <= n <= 256,
        -VEL_MAX <= v <= VEL_MAX,
    ensures
        r.0 == advected_coord(x as int, v as int, dt_ns as int, n as int),
        r.1 == advected_speed(x as int, v as int, dt_ns as int, n as int),
        1 <= r.0 <= n * ONE - 1,
        -VEL_MAX <= r.1 <= VEL_MAX,
{
    assert(-20282409603651670423947251286016 <= (v as int) * (dt_ns as int)
        <= 20282409603651670423947251286016) by (nonlinear_arith)
        requires
            -1099511627776 <= v <= 1099511627776,
            0 <= dt_ns <= 18446744073709551615,
    ;
    let travel: i128 = div_toward_zero((v as i128) * (dt_ns as i128), NANOS_PER_SECOND as i128);
    let moved: i128 = x as i128 + travel;
    let last: i64 = (n as i64) * ONE - 1;
    if moved < 1 {
        (1, 0)
    } else if moved > last as i128 {
        (last, 0)
    } else {
        (moved as i64, v)
    }
}

/// Moves one particle.
pub fn advect_particle(dims: &GridDims, dt_ns: u64, p: &Particle) -> (r: Particle)
    requires
        dims.valid(),
        p.velocity.within(VEL_MAX as int),
    ensures
        r == advected(*dims, dt_ns as int, *p),
        inside(*dims, r.position),
        r.velocity.within(VEL_MAX as int),
{
    let (x, vx) = advect_axis(p.position.x, p.velocity.x, dt_ns, dims.nx);
    let (y, vy) = advect_axis(p.position.y, p.velocity.y, dt_ns, dims.ny);
    let (z, vz) = advect_axis(p.position.z, p.velocity.z, dt_ns, dims.nz);
    Particle { position: Vec3 { x, y, z }, velocity: Vec3 { x: vx, y: vy, z: vz } }
}

/// Moves every particle. None is added or lost, and each ends up inside
/// the grid, wherever it started.
pub fn advect(dims: &GridDims, dt_ns: u64, particles: &Vec<Particle>) -> (out: Vec<Particle>)
    requires
        dims.valid(),
        velocities_bounded(particles@),
    ensures
        out@.len() == particles@.len(),
        forall|q: int|
            0 <= q < particles@.len() ==> #[trigger] out@[q] == advected(
                *dims,
                dt_ns as int,
                particles@[q],
            ),
        all_inside(*dims, out@),
        velocities_bounded(out@),
{
    let mut out: Vec<Particle> = Vec::new();
    let mut q: usize = 0;
    while q < particles.len()
        invariant
            dims.valid(),
            velocities_bounded(particles@),
            q <= particles@.len(),
            out@.len() == q,
            forall|t: int|
                0 <= t < q ==> #[trigger] out@[t] == advected(*dims, dt_ns as int, particles@[t]),
            all_inside(*dims, out@),
            velocities_bounded(out@),
        decreases particles@.len() - q,
    {
        assert(particles@[q as int].velocity.within(VEL_MAX as int));
        let moved: Particle = advect_particle(dims, dt_ns, &particles[q]);
        out.push(moved);
        q += 1;
    }
    out
}

/// Advection leaves a particle strictly inside the grid, and its velocity
/// bounded whenever it was.
pub proof fn lemma_advected_inside(dims: GridDims, dt_ns: int, p: Particle)
    requires
        dims.valid(),
    ensures
        inside(dims, advected(dims, dt_ns, p).position),
        p.velocity.within(VEL_MAX as int) ==> advected(dims, dt_ns, p).velocity.within(
            VEL_MAX as int,
        ),
{
}

} // verus!
