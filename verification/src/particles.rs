//! The particle store: a fixed allocation of particles, filled in bulk.

use vstd::prelude::*;
use crate::error::SimError;
use crate::fixed::{Vec3, ONE, HALF};

verus! {

/// Particles that a fill puts into each cell: two along each axis.
pub const PARTICLES_PER_CELL: u64 = 8;

/// The largest allocation a store can have.
pub const MAX_PARTICLES: usize = 16777216;

/// One particle. It has no identity but its slot in the store.
#[derive(Clone, Copy, Debug, PartialEq, Eq, Structural)]
pub struct Particle {
    pub position: Vec3,
    pub velocity: Vec3,
}

/// A corner of a box of cells.
#[derive(Clone, Copy, Debug, PartialEq, Eq, Structural)]
pub struct CellCorner {
    pub i: u32,
    pub j: u32,
    pub k: u32,
}

/// Cells between two corners along one axis.
pub open spec fn span(lo: u32, hi: u32) -> int {
    if hi > lo {
        hi - lo
    } else {
        0
    }
}

/// Cells in the box from `min` up to, not including, `max`.
pub open spec fn cube_cells(min: CellCorner, max: CellCorner) -> int {
    span(min.i, max.i) * span(min.j, max.j) * span(min.k, max.k)
}

/// Particles that fill the box.
pub open spec fn cube_count(min: CellCorner, max: CellCorner) -> int {
    PARTICLES_PER_CELL * cube_cells(min, max)
}

/// Where a fill puts a particle along one axis: a quarter or three quarters
/// into the cell, by the lattice bit.
pub open spec fn lattice_coord(cell: int, bit: int) -> int {
    cell * ONE + ONE / 4 + bit * HALF
}

/// The `m`-th particle of a fill: at rest, on a lattice of two by two by two
/// in each cell, the cells taken along x first, then y, then z.
pub open spec fn cube_particle(min: CellCorner, max: CellCorner, m: int) -> Particle {
    let sub = m % 8;
    let c = m / 8;
    let w = span(min.i, max.i);
    let h = span(min.j, max.j);
    Particle {
        position: Vec3 {
            x: lattice_coord(min.i + c % w, sub % 2) as i64,
            y: lattice_coord(min.j + (c / w) % h, (sub / 2) % 2) as i64,
            z: lattice_coord(min.k + (c / w) / h, sub / 4) as i64,
        },
        velocity: Vec3 { x: 0, y: 0, z: 0 },
    }
}

/// All particles of a fill, in order.
pub open spec fn cube_particles(min: CellCorner, max: CellCorner) -> Seq<Particle> {
    Seq::new(cube_count(min, max) as nat, |m: int| cube_particle(min, max, m))
}

/// A fixed allocation of particles.
pub struct ParticleStore {
    particles: Vec<Particle>,
    capacity: usize,
}

impl View for ParticleStore {
    type V = Seq<Particle>;

    closed spec fn view(&self) -> Seq<Particle> {
        self.particles@
    }
}

impl ParticleStore {
    pub closed spec fn spec_capacity(&self) -> usize {
        self.capacity
    }

    /// Never more particles than the allocation holds.
    pub open spec fn wf(&self) -> bool {
        &&& self@.len() <= self.spec_capacity()
        &&& self.spec_capacity() <= MAX_PARTICLES
    }

    /// An empty store for up to `capacity` particles; more than
    /// `MAX_PARTICLES` cannot be asked for.
    pub fn new(capacity: usize) -> (r: Result<ParticleStore, SimError>)
        ensures
            capacity <= MAX_PARTICLES <==> r is Ok,
            capacity > MAX_PARTICLES <==> r == Err::<ParticleStore, SimError>(
                SimError::InvalidConfiguration,
            ),
            r is Ok ==> r->Ok_0.wf() && r->Ok_0@.len() == 0 && r->Ok_0.spec_capacity() == capacity,
    {
        if capacity > MAX_PARTICLES {
            return Err(SimError::InvalidConfiguration);
        }
        Ok(ParticleStore { particles: Vec::new(), capacity })
    }

    /// Number of live particles.
    pub fn count(&self) -> (r: usize)
        ensures
            r == self@.len(),
    {
        self.particles.len()
    }

    pub fn capacity(&self) -> (r: usize)
        ensures
            r == self.spec_capacity(),
    {
        self.capacity
    }

    pub fn get(&self, slot: usize) -> (r: Particle)
        requires
            slot < self@.len(),
        ensures
            r == self@[slot as int],
    {
        self.particles[slot]
    }

    /// All particles, read-only.
    pub fn as_vec(&self) -> (r: &Vec<Particle>)
        ensures
            r@ == self@,
    {
        &self.particles
    }

    /// Replaces every particle, slot for slot.
    pub fn replace_all(&mut self, particles: Vec<Particle>)
        requires
            particles@.len() == old(self)@.len(),
        ensures
            final(self)@ == particles@,
            final(self).spec_capacity() == old(self).spec_capacity(),
    {
        self.particles = particles;
    }

    /// Adds one particle, if there is room.
    pub fn add_particle(&mut self, p: Particle) -> (r: Result<(), SimError>)
        requires
            old(self).wf(),
        ensures
            final(self).wf(),
            final(self).spec_capacity() == old(self).spec_capacity(),
            old(self)@.len() < old(self).spec_capacity() <==> r is Ok,
            r is Ok ==> final(self)@ == old(self)@.push(p),
            r is Err ==> r == Err::<(), SimError>(SimError::CapacityExceeded) && final(self)@
                == old(self)@,
    {
        if self.particles.len() >= self.capacity {
            return Err(SimError::CapacityExceeded);
        }
        self.particles.push(p);
        Ok(())
    }

    /// Fills the box of cells from `min` up to, not including, `max` with
    /// eight particles per cell. If they do not all fit, none is added.
    pub fn add_cube(&mut self, min: CellCorner, max: CellCorner) -> (r: Result<(), SimError>)
        requires
            old(self).wf(),
        ensures
            final(self).wf(),
            final(self).spec_capacity() == old(self).spec_capacity(),
            old(self)@.len() + cube_count(min, max) <= old(self).spec_capacity() <==> r is Ok,
            r is Ok ==> final(self)@ == old(self)@ + cube_particles(min, max),
            r is Err ==> r == Err::<(), SimError>(SimError::CapacityExceeded) && final(self)@
                == old(self)@,
    {
        let w: u64 = if max.i > min.i { (max.i - min.i) as u64 } else { 0 };
        let h: u64 = if max.j > min.j { (max.j - min.j) as u64 } else { 0 };
        let d: u64 = if max.k > min.k { (max.k - min.k) as u64 } else { 0 };
        assert(w * h <= 0xffff_ffff * 0xffff_ffff && w * h * d <= 0xffff_ffff * 0xffff_ffff
            * 0xffff_ffff) by (nonlinear_arith)
            requires
                0 <= w <= 0xffff_ffff,
                0 <= h <= 0xffff_ffff,
                0 <= d <= 0xffff_ffff,
        ;
        let cells: u128 = (w as u128) * (h as u128) * (d as u128);
        let wanted: u128 = 8 * cells;
        let room: usize = self.capacity - self.particles.len();
        if wanted > room as u128 {
            return Err(SimError::CapacityExceeded);
        }
        let n: u64 = wanted as u64;
        let ghost before = self.particles@;
        let mut m: u64 = 0;
        while m < n
            invariant
                m <= n,
                n == cube_count(min, max),
                w == span(min.i, max.i),
                h == span(min.j, max.j),
                d == span(min.k, max.k),
                n == 8 * (w * h * d),
                n <= MAX_PARTICLES,
                self.capacity == old(self).capacity,
                self.particles@.len() == before.len() + m,
                before.len() + n <= self.capacity,
                forall|q: int| 0 <= q < before.len() ==> self.particles@[q] == before[q],
                forall|q: int|
                    0 <= q < m ==> self.particles@[before.len() + q] == cube_particle(min, max, q),
            decreases n - m,
        {
            let sub: u64 = m % 8;
            let c: u64 = m / 8;
            proof {
                lemma_cube_cell(w as int, h as int, d as int, c as int);
            }
            let ci: u64 = min.i as u64 + c % w;
            let cj: u64 = min.j as u64 + (c / w) % h;
            let ck: u64 = min.k as u64 + (c / w) / h;
            let p = Particle {
                position: Vec3 {
                    x: (ci * 65536 + 16384 + (sub % 2) * 32768) as i64,
                    y: (cj * 65536 + 16384 + ((sub / 2) % 2) * 32768) as i64,
                    z: (ck * 65536 + 16384 + (sub / 4) * 32768) as i64,
                },
                velocity: Vec3 { x: 0, y: 0, z: 0 },
            };
            self.particles.push(p);
            m += 1;
        }
        assert(self.particles@ =~= before + cube_particles(min, max));
        Ok(())
    }
}

/// The `c`-th cell of a box of `w` by `h` by `d` cells lies in the box.
pub proof fn lemma_cube_cell(w: int, h: int, d: int, c: int)
    requires
        0 <= c < w * h * d,
        w >= 0,
        h >= 0,
        d >= 0,
    ensures
        w > 0,
        h > 0,
        d > 0,
        0 <= c % w < w,
        0 <= (c / w) % h < h,
        0 <= (c / w) / h < d,
{
    assert(w > 0 && h > 0 && d > 0) by (nonlinear_arith)
        requires
            0 <= c < w * h * d,
            w >= 0,
            h >= 0,
            d >= 0,
    ;
    vstd::arithmetic::div_mod::lemma_fundamental_div_mod(c, w);
    vstd::arithmetic::div_mod::lemma_mod_bound(c, w);
    let row = c / w;
    assert(0 <= row < h * d) by (nonlinear_arith)
        requires
            c == w * row + c % w,
            0 <= c % w < w,
            0 <= c < w * h * d,
            w > 0,
    ;
    vstd::arithmetic::div_mod::lemma_fundamental_div_mod(row, h);
    vstd::arithmetic::div_mod::lemma_mod_bound(row, h);
    let k = row / h;
    assert(0 <= k < d) by (nonlinear_arith)
        requires
            row == h * k + row % h,
            0 <= row % h < h,
            0 <= row < h * d,
            h > 0,
    ;
}

} // verus!
