//! Transfer between particles and grid: particle velocities are spread onto
//! the staggered samples, and grid velocities are read back at particles.
//!
//! The scatter adds into accumulators, eight samples per particle and
//! component, and normalizes only once every particle is in. The gather
//! computes every particle on its own from the finished grid.

use vstd::prelude::*;
use crate::fixed::{clamp, clamp_to, div_toward_zero, hat, hat_of, trunc_div, Vec3, HALF, ONE, ONE_CUBED, VEL_MAX};
use crate::grid::{all_inside, inside, unit, GridDims};
use crate::grid::MAX_DIM;
use crate::particles::{Particle, MAX_PARTICLES};

verus! {

/// Share of the change in grid velocity in a particle's new velocity, in
/// units of `1 / ONE`; the rest is the grid velocity itself.
pub const FLIP_RATIO: i64 = 62259;

/// Every entry lies within `[-VEL_MAX, VEL_MAX]`.
pub open spec fn bounded(field: Seq<i64>) -> bool {
    forall|s: int| 0 <= s < field.len() ==> -VEL_MAX <= #[trigger] field[s] <= VEL_MAX
}

/// Every particle's velocity lies within `[-VEL_MAX, VEL_MAX]`.
pub open spec fn velocities_bounded(particles: Seq<Particle>) -> bool {
    forall|q: int|
        0 <= q < particles.len() ==> (#[trigger] particles[q]).velocity.within(VEL_MAX as int)
}

/// How far the samples of the component along `axis` are shifted along
/// axis `a` from the corners of the cells.
pub open spec fn sample_offset(axis: int, a: int) -> int {
    if axis == a {
        0
    } else {
        HALF as int
    }
}

/// Trilinear weight of the particle at sample `(i, j, k)` of the component
/// along `axis`.
pub open spec fn weight(p: Particle, axis: int, i: int, j: int, k: int) -> int {
    hat(p.position.x - (i * ONE + sample_offset(axis, 0))) * hat(
        p.position.y - (j * ONE + sample_offset(axis, 1)),
    ) * hat(p.position.z - (k * ONE + sample_offset(axis, 2)))
}

/// Sum of the weights of the first `upto` particles at a sample.
pub open spec fn weight_sum(particles: Seq<Particle>, upto: int, axis: int, i: int, j: int, k: int) -> int
    decreases upto,
{
    if upto <= 0 {
        0
    } else {
        weight_sum(particles, upto - 1, axis, i, j, k) + weight(particles[upto - 1], axis, i, j, k)
    }
}

/// Sum of the weighted velocities of the first `upto` particles at a sample.
pub open spec fn momentum_sum(
    particles: Seq<Particle>,
    upto: int,
    axis: int,
    i: int,
    j: int,
    k: int,
) -> int
    decreases upto,
{
    if upto <= 0 {
        0
    } else {
        momentum_sum(particles, upto - 1, axis, i, j, k) + weight(
            particles[upto - 1],
            axis,
            i,
            j,
            k,
        ) * particles[upto - 1].velocity.component(axis)
    }
}

/// Weight that all particles together put on sample `s`.
pub open spec fn scattered_weight(dims: GridDims, particles: Seq<Particle>, s: int) -> int {
    weight_sum(
        particles,
        particles.len() as int,
        dims.sample_axis(s),
        dims.sample_i(s),
        dims.sample_j(s),
        dims.sample_k(s),
    )
}

/// Weighted velocity that all particles together put on sample `s`.
pub open spec fn scattered_momentum(dims: GridDims, particles: Seq<Particle>, s: int) -> int {
    momentum_sum(
        particles,
        particles.len() as int,
        dims.sample_axis(s),
        dims.sample_i(s),
        dims.sample_j(s),
        dims.sample_k(s),
    )
}

/// Whether sample `s` carries fluid: it is a face of the grid and some
/// particle put weight on it.
pub open spec fn sample_marked(dims: GridDims, weight_total: int, s: int) -> bool {
    dims.face_in(dims.sample_axis(s), dims.sample_i(s), dims.sample_j(s), dims.sample_k(s))
        && weight_total > 0
}

/// Velocity of sample `s` once all contributions are in: the weighted mean
/// where the sample carries fluid, zero elsewhere.
pub open spec fn normalized(dims: GridDims, momentum_total: int, weight_total: int, s: int) -> int {
    if sample_marked(dims, weight_total, s) {
        clamp(trunc_div(momentum_total, weight_total), -VEL_MAX as int, VEL_MAX as int)
    } else {
        0
    }
}

fn weight_of(p: &Particle, axis: u8, i: u32, j: u32, k: u32) -> (r: i128)
    requires
        axis < 3,
        i <= 256,
        j <= 256,
        k <= 256,
    ensures
        r == weight(*p, axis as int, i as int, j as int, k as int),
        0 <= r <= 281474976710656,
{
    let ox: i128 = if axis == 0 { 0 } else { 32768 };
    let oy: i128 = if axis == 1 { 0 } else { 32768 };
    let oz: i128 = if axis == 2 { 0 } else { 32768 };
    let hx: i128 = hat_of(p.position.x as i128 - ((i as i128) * 65536 + ox)) as i128;
    let hy: i128 = hat_of(p.position.y as i128 - ((j as i128) * 65536 + oy)) as i128;
    let hz: i128 = hat_of(p.position.z as i128 - ((k as i128) * 65536 + oz)) as i128;
    assert(0 <= hx * hy <= 4294967296 && 0 <= hx * hy * hz <= 281474976710656) by (nonlinear_arith)
        requires
            0 <= hx <= 65536,
            0 <= hy <= 65536,
            0 <= hz <= 65536,
    ;
    hx * hy * hz
}

/// The two sums of one sample over all particles, weighted velocity and
/// weight, computed for that sample alone.
pub fn sample_sums(particles: &Vec<Particle>, axis: u8, i: u32, j: u32, k: u32) -> (r: (i128, i128))
    requires
        axis < 3,
        i <= MAX_DIM,
        j <= MAX_DIM,
        k <= MAX_DIM,
        particles@.len() <= MAX_PARTICLES,
        velocities_bounded(particles@),
    ensures
        r.0 == momentum_sum(
            particles@,
            particles@.len() as int,
            axis as int,
            i as int,
            j as int,
            k as int,
        ),
        r.1 == weight_sum(
            particles@,
            particles@.len() as int,
            axis as int,
            i as int,
            j as int,
            k as int,
        ),
        0 <= r.1 <= 4722366482869645213696,
        -5192296858534827628530496329220096 <= r.0 <= 5192296858534827628530496329220096,
{
    let mut momentum: i128 = 0;
    let mut total: i128 = 0;
    let mut q: usize = 0;
    while q < particles.len()
        invariant
            axis < 3,
            i <= 256,
            j <= 256,
            k <= 256,
            q <= particles@.len() <= 16777216,
            velocities_bounded(particles@),
            momentum == momentum_sum(particles@, q as int, axis as int, i as int, j as int, k as int),
            total == weight_sum(particles@, q as int, axis as int, i as int, j as int, k as int),
            0 <= total <= q * 281474976710656,
            -q * 309485009821345068724781056 <= momentum <= q * 309485009821345068724781056,
        decreases particles@.len() - q,
    {
        let p: &Particle = &particles[q];
        let w: i128 = weight_of(p, axis, i, j, k);
        let v: i128 = p.velocity.get(axis) as i128;
        assert(particles@[q as int].velocity.within(VEL_MAX as int));
        assert(-309485009821345068724781056 <= w * v <= 309485009821345068724781056)
            by (nonlinear_arith)
            requires
                0 <= w <= 281474976710656,
                -1099511627776 <= v <= 1099511627776,
        ;
        momentum = momentum + w * v;
        total = total + w;
        q += 1;
    }
    (momentum, total)
}

/// The sample at or below coordinate `x` among samples shifted by `off`.
pub open spec fn base(x: int, off: int) -> int {
    (x - off + ONE) / (ONE as int) - 1
}

/// How far `x` lies beyond that sample.
pub open spec fn frac(x: int, off: int) -> int {
    (x - off + ONE) % (ONE as int)
}

/// Linear weight of the lower (`d == 0`) or upper sample.
pub open spec fn lerp_weight(f: int, d: int) -> int {
    if d == 0 {
        ONE - f
    } else {
        f
    }
}

/// The field at sample `(i, j, k)`; beyond the faces of the grid the
/// nearest face stands in.
pub open spec fn clamped_sample(
    dims: GridDims,
    field: Seq<i64>,
    axis: int,
    i: int,
    j: int,
    k: int,
) -> int {
    field[dims.sample_index(
        axis,
        clamp(i, 0, dims.nx + unit(axis, 0) - 1),
        clamp(j, 0, dims.ny + unit(axis, 1) - 1),
        clamp(k, 0, dims.nz + unit(axis, 2) - 1),
    )] as int
}

/// Weighted value of one of the eight samples around a point.
pub open spec fn corner(
    dims: GridDims,
    field: Seq<i64>,
    axis: int,
    pos: Vec3,
    dx: int,
    dy: int,
    dz: int,
) -> int {
    lerp_weight(frac(pos.x as int, sample_offset(axis, 0)), dx) * lerp_weight(
        frac(pos.y as int, sample_offset(axis, 1)),
        dy,
    ) * lerp_weight(frac(pos.z as int, sample_offset(axis, 2)), dz) * clamped_sample(
        dims,
        field,
        axis,
        base(pos.x as int, sample_offset(axis, 0)) + dx,
        base(pos.y as int, sample_offset(axis, 1)) + dy,
        base(pos.z as int, sample_offset(axis, 2)) + dz,
    )
}

/// Trilinear interpolation of the component along `axis` at a point.
pub open spec fn interpolate(dims: GridDims, field: Seq<i64>, axis: int, pos: Vec3) -> int {
    clamp(
        trunc_div(
            corner(dims, field, axis, pos, 0, 0, 0) + corner(dims, field, axis, pos, 1, 0, 0)
                + corner(dims, field, axis, pos, 0, 1, 0) + corner(dims, field, axis, pos, 1, 1, 0)
                + corner(dims, field, axis, pos, 0, 0, 1) + corner(dims, field, axis, pos, 1, 0, 1)
                + corner(dims, field, axis, pos, 0, 1, 1) + corner(dims, field, axis, pos, 1, 1, 1),
            ONE_CUBED as int,
        ),
        -VEL_MAX as int,
        VEL_MAX as int,
    )
}

/// One component of a particle's velocity after the gather. `before` is the
/// grid velocity as scattered, `after` the one that forces and projection
/// made of it. The particle's own velocity plus the change on the grid and
/// the grid velocity itself are blended by `FLIP_RATIO`.
pub open spec fn gathered_component(
    dims: GridDims,
    before: Seq<i64>,
    after: Seq<i64>,
    p: Particle,
    axis: int,
) -> int {
    let pic = interpolate(dims, after, axis, p.position);
    let flip = p.velocity.component(axis) + pic - interpolate(dims, before, axis, p.position);
    clamp(
        trunc_div(FLIP_RATIO * flip + (ONE - FLIP_RATIO) * pic, ONE as int),
        -VEL_MAX as int,
        VEL_MAX as int,
    )
}

/// A particle after the gather: where it was, with its new velocity.
pub open spec fn gathered(dims: GridDims, before: Seq<i64>, after: Seq<i64>, p: Particle) -> Particle {
    Particle {
        position: p.position,
        velocity: Vec3 {
            x: gathered_component(dims, before, after, p, 0) as i64,
            y: gathered_component(dims, before, after, p, 1) as i64,
            z: gathered_component(dims, before, after, p, 2) as i64,
        },
    }
}

fn split(x: i64, axis: u8, a: u8) -> (r: (i64, i64))
    requires
        0 <= x <= 16777216,
    ensures
        r.0 == base(x as int, sample_offset(axis as int, a as int)),
        r.1 == frac(x as int, sample_offset(axis as int, a as int)),
        -1 <= r.0 <= 256,
        0 <= r.1 < ONE,
{
    let off: i64 = if axis == a { 0 } else { 32768 };
    let shifted: u64 = (x - off + 65536) as u64;
    ((shifted / 65536) as i64 - 1, (shifted % 65536) as i64)
}

fn clamp_index(i: i64, last: u32) -> (r: u32)
    ensures
        r == clamp(i as int, 0, last as int),
{
    if i < 0 {
        0
    } else if i > last as i64 {
        last
    } else {
        i as u32
    }
}

fn corner_of(dims: &GridDims, field: &Vec<i64>, axis: u8, pos: &Vec3, dx: u8, dy: u8, dz: u8) -> (r:
    i128)
    requires
        dims.valid(),
        axis < 3,
        field@.len() == dims.num_samples(),
        bounded(field@),
        inside(*dims, *pos),
        dx <= 1,
        dy <= 1,
        dz <= 1,
    ensures
        r == corner(*dims, field@, axis as int, *pos, dx as int, dy as int, dz as int),
        -309485009821345068724781056 <= r <= 309485009821345068724781056,
{
    let (bx, fx) = split(pos.x, axis, 0);
    let (by, fy) = split(pos.y, axis, 1);
    let (bz, fz) = split(pos.z, axis, 2);
    let wx: i128 = if dx == 0 { (ONE - fx) as i128 } else { fx as i128 };
    let wy: i128 = if dy == 0 { (ONE - fy) as i128 } else { fy as i128 };
    let wz: i128 = if dz == 0 { (ONE - fz) as i128 } else { fz as i128 };
    let i: u32 = clamp_index(bx + dx as i64, if axis == 0 { dims.nx } else { dims.nx - 1 });
    let j: u32 = clamp_index(by + dy as i64, if axis == 1 { dims.ny } else { dims.ny - 1 });
    let k: u32 = clamp_index(bz + dz as i64, if axis == 2 { dims.nz } else { dims.nz - 1 });
    let s: usize = dims.sample_number(axis, i, j, k);
    assert(-VEL_MAX <= field@[s as int] <= VEL_MAX);
    let v: i128 = field[s] as i128;
    assert(0 <= wx * wy <= 4294967296 && 0 <= wx * wy * wz <= 281474976710656
        && -309485009821345068724781056 <= wx * wy * wz * v <= 309485009821345068724781056)
        by (nonlinear_arith)
        requires
            0 <= wx <= 65536,
            0 <= wy <= 65536,
            0 <= wz <= 65536,
            -1099511627776 <= v <= 1099511627776,
    ;
    wx * wy * wz * v
}

/// Reads one component of a grid field at a point inside the grid.
pub fn interpolate_at(dims: &GridDims, field: &Vec<i64>, axis: u8, pos: &Vec3) -> (r: i64)
    requires
        dims.valid(),
        axis < 3,
        field@.len() == dims.num_samples(),
        bounded(field@),
        inside(*dims, *pos),
    ensures
        r == interpolate(*dims, field@, axis as int, *pos),
        -VEL_MAX <= r <= VEL_MAX,
{
    let sum: i128 = corner_of(dims, field, axis, pos, 0, 0, 0) + corner_of(
        dims,
        field,
        axis,
        pos,
        1,
        0,
        0,
    ) + corner_of(dims, field, axis, pos, 0, 1, 0) + corner_of(dims, field, axis, pos, 1, 1, 0)
        + corner_of(dims, field, axis, pos, 0, 0, 1) + corner_of(dims, field, axis, pos, 1, 0, 1)
        + corner_of(dims, field, axis, pos, 0, 1, 1) + corner_of(dims, field, axis, pos, 1, 1, 1);
    clamp_to(div_toward_zero(sum, ONE_CUBED), -VEL_MAX, VEL_MAX)
}

fn gather_component(dims: &GridDims, before: &Vec<i64>, after: &Vec<i64>, p: &Particle, axis: u8) -> (r:
    i64)
    requires
        dims.valid(),
        axis < 3,
        before@.len() == dims.num_samples(),
        after@.len() == dims.num_samples(),
        bounded(before@),
        bounded(after@),
        inside(*dims, p.position),
        p.velocity.within(VEL_MAX as int),
    ensures
        r == gathered_component(*dims, before@, after@, *p, axis as int),
        -VEL_MAX <= r <= VEL_MAX,
{
    let pic: i128 = interpolate_at(dims, after, axis, &p.position) as i128;
    let was: i128 = interpolate_at(dims, before, axis, &p.position) as i128;
    let flip: i128 = p.velocity.get(axis) as i128 + pic - was;
    // FLIP_RATIO and its complement to ONE
    let blend: i128 = 62259 * flip + 3277 * pic;
    clamp_to(div_toward_zero(blend, ONE as i128), -VEL_MAX, VEL_MAX)
}

/// Gives every particle its new velocity from the grid.
pub fn gather(dims: &GridDims, before: &Vec<i64>, after: &Vec<i64>, particles: &Vec<Particle>) -> (out:
    Vec<Particle>)
    requires
        dims.valid(),
        before@.len() == dims.num_samples(),
        after@.len() == dims.num_samples(),
        bounded(before@),
        bounded(after@),
        all_inside(*dims, particles@),
        velocities_bounded(particles@),
    ensures
        out@.len() == particles@.len(),
        forall|q: int|
            0 <= q < particles@.len() ==> #[trigger] out@[q] == gathered(
                *dims,
                before@,
                after@,
                particles@[q],
            ),
        all_inside(*dims, out@),
        velocities_bounded(out@),
{
    let mut out: Vec<Particle> = Vec::new();
    let mut q: usize = 0;
    while q < particles.len()
        invariant
            dims.valid(),
            before@.len() == dims.num_samples(),
            after@.len() == dims.num_samples(),
            bounded(before@),
            bounded(after@),
            all_inside(*dims, particles@),
            velocities_bounded(particles@),
            q <= particles@.len(),
            out@.len() == q,
            forall|t: int|
                0 <= t < q ==> #[trigger] out@[t] == gathered(
                    *dims,
                    before@,
                    after@,
                    particles@[t],
                ),
            all_inside(*dims, out@),
            velocities_bounded(out@),
        decreases particles@.len() - q,
    {
        let p: &Particle = &particles[q];
        assert(inside(*dims, particles@[q as int].position));
        assert(particles@[q as int].velocity.within(VEL_MAX as int));
        let moved = Particle {
            position: p.position,
            velocity: Vec3 {
                x: gather_component(dims, before, after, p, 0),
                y: gather_component(dims, before, after, p, 1),
                z: gather_component(dims, before, after, p, 2),
            },
        };
        out.push(moved);
        q += 1;
    }
    out
}

/// Weight of the particle at sample `s`.
pub open spec fn sample_weight(dims: GridDims, p: Particle, s: int) -> int {
    weight(p, dims.sample_axis(s), dims.sample_i(s), dims.sample_j(s), dims.sample_k(s))
}

/// Whether sample `s` is sample `(i, j, k)` of the component along `axis`.
pub open spec fn corner_hit(dims: GridDims, s: int, axis: int, i: int, j: int, k: int) -> bool {
    &&& dims.sample_axis(s) == axis
    &&& dims.sample_i(s) == i
    &&& dims.sample_j(s) == j
    &&& dims.sample_k(s) == k
}

/// Along one axis the kernel reaches two samples: the one at or below the
/// coordinate and the one above it. Every other sample has weight zero.
pub proof fn lemma_hat_reach(x: int, off: int, i: int)
    ensures
        0 <= frac(x, off) < ONE,
        hat(x - (i * ONE + off)) == if i == base(x, off) {
            ONE - frac(x, off)
        } else if i == base(x, off) + 1 {
            frac(x, off)
        } else {
            0
        },
{
    let t = x - off + ONE;
    vstd::arithmetic::div_mod::lemma_fundamental_div_mod(t, ONE as int);
    vstd::arithmetic::div_mod::lemma_mod_bound(t, ONE as int);
    let b = base(x, off);
    let f = frac(x, off);
    assert(t == 65536 * (b + 1) + f);
    assert(x - (i * ONE + off) == (b - i) * 65536 + f) by (nonlinear_arith)
        requires
            x - off + 65536 == 65536 * (b + 1) + f,
    ;
    if i < b {
        assert((b - i) * 65536 >= 65536);
    } else if i > b + 1 {
        assert((b - i) * 65536 <= -131072);
    }
}

/// The weight of a particle at a sample is the product of the three linear
/// weights where the sample is one of the eight around the particle, and
/// zero at every other sample. It never exceeds `ONE_CUBED`.
pub proof fn lemma_weight_reach(p: Particle, axis: int, i: int, j: int, k: int)
    ensures
        0 <= weight(p, axis, i, j, k) <= ONE_CUBED,
        (i == base(p.position.x as int, sample_offset(axis, 0)) || i == base(
            p.position.x as int,
            sample_offset(axis, 0),
        ) + 1) && (j == base(p.position.y as int, sample_offset(axis, 1)) || j == base(
            p.position.y as int,
            sample_offset(axis, 1),
        ) + 1) && (k == base(p.position.z as int, sample_offset(axis, 2)) || k == base(
            p.position.z as int,
            sample_offset(axis, 2),
        ) + 1) || weight(p, axis, i, j, k) == 0,
        weight(p, axis, i, j, k) == lerp_weight(
            frac(p.position.x as int, sample_offset(axis, 0)),
            i - base(p.position.x as int, sample_offset(axis, 0)),
        ) * lerp_weight(
            frac(p.position.y as int, sample_offset(axis, 1)),
            j - base(p.position.y as int, sample_offset(axis, 1)),
        ) * lerp_weight(
            frac(p.position.z as int, sample_offset(axis, 2)),
            k - base(p.position.z as int, sample_offset(axis, 2)),
        ) || weight(p, axis, i, j, k) == 0,
{
    lemma_hat_reach(p.position.x as int, sample_offset(axis, 0), i);
    lemma_hat_reach(p.position.y as int, sample_offset(axis, 1), j);
    lemma_hat_reach(p.position.z as int, sample_offset(axis, 2), k);
    let hx = hat(p.position.x - (i * ONE + sample_offset(axis, 0)));
    let hy = hat(p.position.y - (j * ONE + sample_offset(axis, 1)));
    let hz = hat(p.position.z - (k * ONE + sample_offset(axis, 2)));
    assert(0 <= hx * hy * hz <= 281474976710656 && ((hx == 0 || hy == 0 || hz == 0) ==> hx * hy
        * hz == 0)) by (nonlinear_arith)
        requires
            0 <= hx <= 65536,
            0 <= hy <= 65536,
            0 <= hz <= 65536,
    ;
}

/// The sums over the first `upto` particles are bounded by their number.
pub proof fn lemma_sum_bounds(particles: Seq<Particle>, upto: int, axis: int, i: int, j: int, k: int)
    requires
        0 <= upto <= particles.len(),
        0 <= axis < 3,
        velocities_bounded(particles),
    ensures
        0 <= weight_sum(particles, upto, axis, i, j, k) <= upto * 281474976710656,
        -upto * 309485009821345068724781056 <= momentum_sum(particles, upto, axis, i, j, k)
            <= upto * 309485009821345068724781056,
    decreases upto,
{
    if upto > 0 {
        lemma_sum_bounds(particles, upto - 1, axis, i, j, k);
        let p = particles[upto - 1];
        lemma_weight_reach(p, axis, i, j, k);
        let w = weight(p, axis, i, j, k);
        let v = p.velocity.component(axis) as int;
        assert(p.velocity.within(VEL_MAX as int));
        assert(-309485009821345068724781056 <= w * v <= 309485009821345068724781056)
            by (nonlinear_arith)
            requires
                0 <= w <= 281474976710656,
                -1099511627776 <= v <= 1099511627776,
        ;
    }
}

fn deposit_corner(
    dims: &GridDims,
    p: &Particle,
    axis: u8,
    dx: u8,
    dy: u8,
    dz: u8,
    momentum: &mut Vec<i128>,
    weights: &mut Vec<i128>,
)
    requires
        dims.valid(),
        axis < 3,
        dx <= 1,
        dy <= 1,
        dz <= 1,
        inside(*dims, p.position),
        p.velocity.within(VEL_MAX as int),
        old(momentum)@.len() == dims.num_samples(),
        old(weights)@.len() == dims.num_samples(),
        forall|s: int|
            0 <= s < dims.num_samples() ==> -0x400_0000_0000_0000_0000_0000_0000_0000
                <= #[trigger] old(momentum)@[s] <= 0x400_0000_0000_0000_0000_0000_0000_0000,
        forall|s: int|
            0 <= s < dims.num_samples() ==> 0 <= #[trigger] old(weights)@[s]
                <= 0x400_0000_0000_0000_0000_0000_0000_0000,
    ensures
        final(momentum)@.len() == dims.num_samples(),
        final(weights)@.len() == dims.num_samples(),
        forall|s: int|
            0 <= s < dims.num_samples() ==> #[trigger] final(momentum)@[s] == old(momentum)@[s] + (
            if corner_hit(
                *dims,
                s,
                axis as int,
                base(p.position.x as int, sample_offset(axis as int, 0)) + dx,
                base(p.position.y as int, sample_offset(axis as int, 1)) + dy,
                base(p.position.z as int, sample_offset(axis as int, 2)) + dz,
            ) {
                sample_weight(*dims, *p, s) * p.velocity.component(axis as int)
            } else {
                0
            }),
        forall|s: int|
            0 <= s < dims.num_samples() ==> #[trigger] final(weights)@[s] == old(weights)@[s] + (
            if corner_hit(
                *dims,
                s,
                axis as int,
                base(p.position.x as int, sample_offset(axis as int, 0)) + dx,
                base(p.position.y as int, sample_offset(axis as int, 1)) + dy,
                base(p.position.z as int, sample_offset(axis as int, 2)) + dz,
            ) {
                sample_weight(*dims, *p, s)
            } else {
                0
            }),
{
    let (bx, fx) = split(p.position.x, axis, 0);
    let (by, fy) = split(p.position.y, axis, 1);
    let (bz, fz) = split(p.position.z, axis, 2);
    let i: i64 = bx + dx as i64;
    let j: i64 = by + dy as i64;
    let k: i64 = bz + dz as i64;
    proof {
        assert forall|s: int| 0 <= s < dims.num_samples() implies dims.node_in(
            dims.sample_i(s),
            dims.sample_j(s),
            dims.sample_k(s),
        ) && dims.sample_index(
            dims.sample_axis(s),
            dims.sample_i(s),
            dims.sample_j(s),
            dims.sample_k(s),
        ) == s by {
            dims.lemma_sample_coords(s);
        }
    }
    if 0 <= i && i <= dims.nx as i64 && 0 <= j && j <= dims.ny as i64 && 0 <= k && k
        <= dims.nz as i64 {
        let s: usize = dims.sample_number(axis, i as u32, j as u32, k as u32);
        let wx: i128 = if dx == 0 { (ONE - fx) as i128 } else { fx as i128 };
        let wy: i128 = if dy == 0 { (ONE - fy) as i128 } else { fy as i128 };
        let wz: i128 = if dz == 0 { (ONE - fz) as i128 } else { fz as i128 };
        let v: i128 = p.velocity.get(axis) as i128;
        proof {
            dims.lemma_sample_index(axis as int, i as int, j as int, k as int);
            lemma_hat_reach(p.position.x as int, sample_offset(axis as int, 0), i as int);
            lemma_hat_reach(p.position.y as int, sample_offset(axis as int, 1), j as int);
            lemma_hat_reach(p.position.z as int, sample_offset(axis as int, 2), k as int);
            assert(sample_weight(*dims, *p, s as int) == wx * wy * wz);
        }
        assert(0 <= wx * wy <= 4294967296 && 0 <= wx * wy * wz <= 281474976710656
            && -309485009821345068724781056 <= wx * wy * wz * v <= 309485009821345068724781056)
            by (nonlinear_arith)
            requires
                0 <= wx <= 65536,
                0 <= wy <= 65536,
                0 <= wz <= 65536,
                -1099511627776 <= v <= 1099511627776,
        ;
        let w: i128 = wx * wy * wz;
        momentum.set(s, momentum[s] + w * v);
        weights.set(s, weights[s] + w);
    }
}

/// Which of the eight samples around the particle sample `s` is, for the
/// component along `axis`: 0 to 7, or 8 if it is none of them.
pub open spec fn corner_number(dims: GridDims, p: Particle, s: int, axis: int) -> int {
    let di = dims.sample_i(s) - base(p.position.x as int, sample_offset(axis, 0));
    let dj = dims.sample_j(s) - base(p.position.y as int, sample_offset(axis, 1));
    let dk = dims.sample_k(s) - base(p.position.z as int, sample_offset(axis, 2));
    if 0 <= di <= 1 && 0 <= dj <= 1 && 0 <= dk <= 1 {
        di + 2 * dj + 4 * dk
    } else {
        8
    }
}

fn deposit_axis(
    dims: &GridDims,
    p: &Particle,
    axis: u8,
    momentum: &mut Vec<i128>,
    weights: &mut Vec<i128>,
)
    requires
        dims.valid(),
        axis < 3,
        inside(*dims, p.position),
        p.velocity.within(VEL_MAX as int),
        old(momentum)@.len() == dims.num_samples(),
        old(weights)@.len() == dims.num_samples(),
        forall|s: int|
            0 <= s < dims.num_samples() ==> -0x200_0000_0000_0000_0000_0000_0000_0000
                <= #[trigger] old(momentum)@[s] <= 0x200_0000_0000_0000_0000_0000_0000_0000,
        forall|s: int|
            0 <= s < dims.num_samples() ==> 0 <= #[trigger] old(weights)@[s]
                <= 0x200_0000_0000_0000_0000_0000_0000_0000,
    ensures
        final(momentum)@.len() == dims.num_samples(),
        final(weights)@.len() == dims.num_samples(),
        forall|s: int|
            0 <= s < dims.num_samples() ==> #[trigger] final(momentum)@[s] == old(momentum)@[s] + (
            if dims.sample_axis(s) == axis {
                sample_weight(*dims, *p, s) * p.velocity.component(axis as int)
            } else {
                0
            }),
        forall|s: int|
            0 <= s < dims.num_samples() ==> #[trigger] final(weights)@[s] == old(weights)@[s] + (
            if dims.sample_axis(s) == axis {
                sample_weight(*dims, *p, s)
            } else {
                0
            }),
{
    let ghost momentum_before = momentum@;
    let ghost weights_before = weights@;
    let ghost n = dims.num_samples();
    proof {
        assert forall|s: int| 0 <= s < n implies 0 <= #[trigger] sample_weight(*dims, *p, s)
            <= 281474976710656 && -309485009821345068724781056 <= sample_weight(*dims, *p, s)
            * p.velocity.component(axis as int) <= 309485009821345068724781056 by {
            lemma_weight_reach(
                *p,
                dims.sample_axis(s),
                dims.sample_i(s),
                dims.sample_j(s),
                dims.sample_k(s),
            );
            let w = sample_weight(*dims, *p, s);
            let v = p.velocity.component(axis as int) as int;
            assert(-309485009821345068724781056 <= w * v <= 309485009821345068724781056)
                by (nonlinear_arith)
                requires
                    0 <= w <= 281474976710656,
                    -1099511627776 <= v <= 1099511627776,
            ;
        }
    }
    let mut c: u8 = 0;
    while c < 8
        invariant
            c <= 8,
            dims.valid(),
            axis < 3,
            n == dims.num_samples(),
            inside(*dims, p.position),
            p.velocity.within(VEL_MAX as int),
            momentum@.len() == n,
            weights@.len() == n,
            momentum_before.len() == n,
            weights_before.len() == n,
            forall|s: int|
                0 <= s < n ==> -0x200_0000_0000_0000_0000_0000_0000_0000
                    <= #[trigger] momentum_before[s] <= 0x200_0000_0000_0000_0000_0000_0000_0000,
            forall|s: int|
                0 <= s < n ==> 0 <= #[trigger] weights_before[s]
                    <= 0x200_0000_0000_0000_0000_0000_0000_0000,
            forall|s: int|
                0 <= s < n ==> 0 <= #[trigger] sample_weight(*dims, *p, s) <= 281474976710656
                    && -309485009821345068724781056 <= sample_weight(*dims, *p, s)
                    * p.velocity.component(axis as int) <= 309485009821345068724781056,
            forall|s: int|
                0 <= s < n ==> #[trigger] momentum@[s] == momentum_before[s] + (if dims.sample_axis(
                    s,
                ) == axis && corner_number(*dims, *p, s, axis as int) < c {
                    sample_weight(*dims, *p, s) * p.velocity.component(axis as int)
                } else {
                    0
                }),
            forall|s: int|
                0 <= s < n ==> #[trigger] weights@[s] == weights_before[s] + (if dims.sample_axis(s)
                    == axis && corner_number(*dims, *p, s, axis as int) < c {
                    sample_weight(*dims, *p, s)
                } else {
                    0
                }),
        decreases 8 - c,
    {
        let ghost momentum_now = momentum@;
        let ghost weights_now = weights@;
        proof {
            assert forall|s: int| 0 <= s < n implies -0x400_0000_0000_0000_0000_0000_0000_0000
                <= #[trigger] momentum@[s] <= 0x400_0000_0000_0000_0000_0000_0000_0000 by {
                assert(0 <= sample_weight(*dims, *p, s));
                assert(-0x200_0000_0000_0000_0000_0000_0000_0000 <= momentum_before[s]);
            }
            assert forall|s: int| 0 <= s < n implies 0 <= #[trigger] weights@[s]
                <= 0x400_0000_0000_0000_0000_0000_0000_0000 by {
                assert(0 <= sample_weight(*dims, *p, s));
                assert(0 <= weights_before[s]);
            }
        }
        deposit_corner(dims, p, axis, c % 2, (c / 2) % 2, c / 4, momentum, weights);
        proof {
            assert forall|s: int| 0 <= s < n implies (corner_hit(
                *dims,
                s,
                axis as int,
                base(p.position.x as int, sample_offset(axis as int, 0)) + (c % 2),
                base(p.position.y as int, sample_offset(axis as int, 1)) + ((c / 2) % 2),
                base(p.position.z as int, sample_offset(axis as int, 2)) + (c / 4),
            ) <==> dims.sample_axis(s) == axis && #[trigger] corner_number(
                *dims,
                *p,
                s,
                axis as int,
            ) == c) by {}
            assert forall|s: int| 0 <= s < n implies #[trigger] momentum@[s] == momentum_before[s]
                + (if dims.sample_axis(s) == axis && corner_number(*dims, *p, s, axis as int) < c
                + 1 {
                sample_weight(*dims, *p, s) * p.velocity.component(axis as int)
            } else {
                0
            }) by {
                assert(momentum_now[s] == momentum_before[s] + (if dims.sample_axis(s) == axis
                    && corner_number(*dims, *p, s, axis as int) < c {
                    sample_weight(*dims, *p, s) * p.velocity.component(axis as int)
                } else {
                    0
                }));
                assert(corner_number(*dims, *p, s, axis as int) == c || corner_number(
                    *dims,
                    *p,
                    s,
                    axis as int,
                ) != c);
            }
            assert forall|s: int| 0 <= s < n implies #[trigger] weights@[s] == weights_before[s] + (
            if dims.sample_axis(s) == axis && corner_number(*dims, *p, s, axis as int) < c + 1 {
                sample_weight(*dims, *p, s)
            } else {
                0
            }) by {
                assert(weights_now[s] == weights_before[s] + (if dims.sample_axis(s) == axis
                    && corner_number(*dims, *p, s, axis as int) < c {
                    sample_weight(*dims, *p, s)
                } else {
                    0
                }));
                assert(corner_number(*dims, *p, s, axis as int) == c || corner_number(
                    *dims,
                    *p,
                    s,
                    axis as int,
                ) != c);
            }
        }
        c += 1;
    }
    proof {
        assert forall|s: int| 0 <= s < n implies #[trigger] momentum@[s] == momentum_before[s] + (
        if dims.sample_axis(s) == axis {
            sample_weight(*dims, *p, s) * p.velocity.component(axis as int)
        } else {
            0
        }) && weights@[s] == weights_before[s] + (if dims.sample_axis(s) == axis {
            sample_weight(*dims, *p, s)
        } else {
            0
        }) by {
            lemma_weight_reach(
                *p,
                dims.sample_axis(s),
                dims.sample_i(s),
                dims.sample_j(s),
                dims.sample_k(s),
            );
            let w = sample_weight(*dims, *p, s);
            let v = p.velocity.component(axis as int) as int;
            if dims.sample_axis(s) == axis && corner_number(*dims, *p, s, axis as int) == 8 {
                assert(w == 0);
                assert(w * v == 0) by (nonlinear_arith)
                    requires
                        w == 0,
                ;
            }
        }
        assert forall|s: int| 0 <= s < n implies #[trigger] weights@[s] == weights_before[s] + (
        if dims.sample_axis(s) == axis {
            sample_weight(*dims, *p, s)
        } else {
            0
        }) by {
            lemma_weight_reach(
                *p,
                dims.sample_axis(s),
                dims.sample_i(s),
                dims.sample_j(s),
                dims.sample_k(s),
            );
        }
    }
}

/// Adds what one particle contributes to every sample.
fn deposit(dims: &GridDims, p: &Particle, momentum: &mut Vec<i128>, weights: &mut Vec<i128>)
    requires
        dims.valid(),
        inside(*dims, p.position),
        p.velocity.within(VEL_MAX as int),
        old(momentum)@.len() == dims.num_samples(),
        old(weights)@.len() == dims.num_samples(),
        forall|s: int|
            0 <= s < dims.num_samples() ==> -0x100_0000_0000_0000_0000_0000_0000_0000
                <= #[trigger] old(momentum)@[s] <= 0x100_0000_0000_0000_0000_0000_0000_0000,
        forall|s: int|
            0 <= s < dims.num_samples() ==> 0 <= #[trigger] old(weights)@[s]
                <= 0x100_0000_0000_0000_0000_0000_0000_0000,
    ensures
        final(momentum)@.len() == dims.num_samples(),
        final(weights)@.len() == dims.num_samples(),
        forall|s: int|
            0 <= s < dims.num_samples() ==> #[trigger] final(momentum)@[s] == old(momentum)@[s]
                + sample_weight(*dims, *p, s) * p.velocity.component(dims.sample_axis(s)),
        forall|s: int|
            0 <= s < dims.num_samples() ==> #[trigger] final(weights)@[s] == old(weights)@[s]
                + sample_weight(*dims, *p, s),
{
    proof {
        assert forall|s: int| 0 <= s < dims.num_samples() implies 0 <= dims.sample_axis(s) < 3
            && 0 <= #[trigger] sample_weight(*dims, *p, s) <= 281474976710656
            && -309485009821345068724781056 <= sample_weight(*dims, *p, s)
            * p.velocity.component(dims.sample_axis(s)) <= 309485009821345068724781056 by {
            dims.lemma_sample_coords(s);
            lemma_weight_reach(
                *p,
                dims.sample_axis(s),
                dims.sample_i(s),
                dims.sample_j(s),
                dims.sample_k(s),
            );
            let w = sample_weight(*dims, *p, s);
            let v = p.velocity.component(dims.sample_axis(s)) as int;
            assert(-309485009821345068724781056 <= w * v <= 309485009821345068724781056)
                by (nonlinear_arith)
                requires
                    0 <= w <= 281474976710656,
                    -1099511627776 <= v <= 1099511627776,
            ;
        }
    }
    deposit_axis(dims, p, 0, momentum, weights);
    deposit_axis(dims, p, 1, momentum, weights);
    deposit_axis(dims, p, 2, momentum, weights);
}

/// Spreads the particle velocities onto the grid. The accumulators must
/// have been cleared. Every particle adds its weighted velocity and its
/// weight to the eight samples around it, for each component; only when
/// all particles are in is each sample normalized by its weight, and marked
/// if it received any.
pub fn scatter(
    dims: &GridDims,
    particles: &Vec<Particle>,
    momentum: &mut Vec<i128>,
    weights: &mut Vec<i128>,
) -> (r: (Vec<i64>, Vec<bool>))
    requires
        dims.valid(),
        particles@.len() <= MAX_PARTICLES,
        all_inside(*dims, particles@),
        velocities_bounded(particles@),
        old(momentum)@.len() == dims.num_samples(),
        old(weights)@.len() == dims.num_samples(),
        forall|s: int| 0 <= s < dims.num_samples() ==> #[trigger] old(momentum)@[s] == 0,
        forall|s: int| 0 <= s < dims.num_samples() ==> #[trigger] old(weights)@[s] == 0,
    ensures
        final(momentum)@.len() == dims.num_samples(),
        final(weights)@.len() == dims.num_samples(),
        r.0@.len() == dims.num_samples(),
        r.1@.len() == dims.num_samples(),
        bounded(r.0@),
        forall|s: int|
            0 <= s < dims.num_samples() ==> #[trigger] final(momentum)@[s] == scattered_momentum(
                *dims,
                particles@,
                s,
            ),
        forall|s: int|
            0 <= s < dims.num_samples() ==> #[trigger] final(weights)@[s] == scattered_weight(
                *dims,
                particles@,
                s,
            ),
        forall|s: int|
            0 <= s < dims.num_samples() ==> #[trigger] r.0@[s] == normalized(
                *dims,
                scattered_momentum(*dims, particles@, s),
                scattered_weight(*dims, particles@, s),
                s,
            ),
        forall|s: int|
            0 <= s < dims.num_samples() ==> #[trigger] r.1@[s] == sample_marked(
                *dims,
                scattered_weight(*dims, particles@, s),
                s,
            ),
{
    let n: usize = dims.sample_count();
    let mut q: usize = 0;
    while q < particles.len()
        invariant
            dims.valid(),
            n == dims.num_samples(),
            q <= particles@.len() <= 16777216,
            all_inside(*dims, particles@),
            velocities_bounded(particles@),
            momentum@.len() == n,
            weights@.len() == n,
            forall|s: int|
                0 <= s < n ==> #[trigger] momentum@[s] == momentum_sum(
                    particles@,
                    q as int,
                    dims.sample_axis(s),
                    dims.sample_i(s),
                    dims.sample_j(s),
                    dims.sample_k(s),
                ),
            forall|s: int|
                0 <= s < n ==> #[trigger] weights@[s] == weight_sum(
                    particles@,
                    q as int,
                    dims.sample_axis(s),
                    dims.sample_i(s),
                    dims.sample_j(s),
                    dims.sample_k(s),
                ),
        decreases particles@.len() - q,
    {
        proof {
            assert forall|s: int| 0 <= s < n implies -0x100_0000_0000_0000_0000_0000_0000_0000
                <= #[trigger] momentum@[s] <= 0x100_0000_0000_0000_0000_0000_0000_0000 by {
                dims.lemma_sample_coords(s);
                lemma_sum_bounds(
                    particles@,
                    q as int,
                    dims.sample_axis(s),
                    dims.sample_i(s),
                    dims.sample_j(s),
                    dims.sample_k(s),
                );
            }
            assert forall|s: int| 0 <= s < n implies 0 <= #[trigger] weights@[s]
                <= 0x100_0000_0000_0000_0000_0000_0000_0000 by {
                dims.lemma_sample_coords(s);
                lemma_sum_bounds(
                    particles@,
                    q as int,
                    dims.sample_axis(s),
                    dims.sample_i(s),
                    dims.sample_j(s),
                    dims.sample_k(s),
                );
            }
            assert(inside(*dims, particles@[q as int].position));
            assert(particles@[q as int].velocity.within(VEL_MAX as int));
        }
        deposit(dims, &particles[q], momentum, weights);
        q += 1;
    }
    let mut velocity: Vec<i64> = Vec::new();
    let mut marked: Vec<bool> = Vec::new();
    let mut s: usize = 0;
    while s < n
        invariant
            dims.valid(),
            n == dims.num_samples(),
            s <= n,
            particles@.len() <= 16777216,
            velocities_bounded(particles@),
            momentum@.len() == n,
            weights@.len() == n,
            velocity@.len() == s,
            marked@.len() == s,
            forall|t: int|
                0 <= t < n ==> #[trigger] momentum@[t] == scattered_momentum(*dims, particles@, t),
            forall|t: int|
                0 <= t < n ==> #[trigger] weights@[t] == scattered_weight(*dims, particles@, t),
            forall|t: int| 0 <= t < s ==> -VEL_MAX <= #[trigger] velocity@[t] <= VEL_MAX,
            forall|t: int|
                0 <= t < s ==> #[trigger] velocity@[t] == normalized(
                    *dims,
                    scattered_momentum(*dims, particles@, t),
                    scattered_weight(*dims, particles@, t),
                    t,
                ),
            forall|t: int|
                0 <= t < s ==> #[trigger] marked@[t] == sample_marked(
                    *dims,
                    scattered_weight(*dims, particles@, t),
                    t,
                ),
        decreases n - s,
    {
        let (axis, i, j, k) = dims.sample_coords(s);
        let m: i128 = momentum[s];
        let w: i128 = weights[s];
        proof {
            lemma_sum_bounds(
                particles@,
                particles@.len() as int,
                axis as int,
                i as int,
                j as int,
                k as int,
            );
        }
        let carries: bool = dims.has_face(axis, i, j, k) && w > 0;
        let v: i64 = if carries {
            clamp_to(div_toward_zero(m, w), -VEL_MAX, VEL_MAX)
        } else {
            0
        };
        velocity.push(v);
        marked.push(carries);
        s += 1;
    }
    (velocity, marked)
}

} // verus!
