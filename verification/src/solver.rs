//! The fluid solver: owner of the particle store and of the grid, and the
//! one place where the stages are put in order.

use vstd::prelude::*;
use crate::advection::{advect, advected, lemma_advected_inside};
use crate::error::SimError;
use crate::fixed::{Vec3, ONE, VEL_MAX};
use crate::grid::{all_inside, classified, classify, inside, GridDims, Marker};
use crate::particles::{cube_particle, cube_particles, cube_count, lemma_cube_cell, span, CellCorner, Particle, ParticleStore, MAX_PARTICLES};
use crate::projection::{
    apply_gravity, compute_divergence, correct_velocity, corrected, divergence_field,
    is_max_magnitude, max_magnitude, solve_pressure, solved_pressure, with_gravity,
};
use crate::transfer::{
    gather, gathered, normalized, sample_marked, scatter, scattered_momentum, scattered_weight,
    velocities_bounded,
};

verus! {

/// Everything the solver holds, as plain values.
pub struct FluidState {
    pub dims: GridDims,
    pub dt_ns: u64,
    pub gravity: Vec3,
    pub sweeps: u32,
    pub capacity: usize,
    pub particles: Seq<Particle>,
    pub markers: Seq<Marker>,
    pub momentum: Seq<i128>,
    pub weights: Seq<i128>,
    pub marked: Seq<bool>,
    pub velocity: Seq<i64>,
    pub divergence: Seq<i64>,
    pub pressure: Seq<i64>,
}

/// The momentum accumulators once every particle has been scattered.
pub open spec fn momentum_field(dims: GridDims, particles: Seq<Particle>) -> Seq<i128> {
    Seq::new(dims.num_samples() as nat, |s: int| scattered_momentum(dims, particles, s) as i128)
}

/// The weight accumulators once every particle has been scattered.
pub open spec fn weight_field(dims: GridDims, particles: Seq<Particle>) -> Seq<i128> {
    Seq::new(dims.num_samples() as nat, |s: int| scattered_weight(dims, particles, s) as i128)
}

/// Which samples carry fluid.
pub open spec fn marked_field(dims: GridDims, particles: Seq<Particle>) -> Seq<bool> {
    Seq::new(
        dims.num_samples() as nat,
        |s: int| sample_marked(dims, scattered_weight(dims, particles, s), s),
    )
}

/// The grid velocity as the particles set it, before any force.
pub open spec fn scattered_field(dims: GridDims, particles: Seq<Particle>) -> Seq<i64> {
    Seq::new(
        dims.num_samples() as nat,
        |s: int|
            normalized(
                dims,
                scattered_momentum(dims, particles, s),
                scattered_weight(dims, particles, s),
                s,
            ) as i64,
    )
}

/// The grid velocity after gravity.
pub open spec fn forced_field(
    dims: GridDims,
    gravity: Vec3,
    dt_ns: u64,
    particles: Seq<Particle>,
) -> Seq<i64> {
    Seq::new(
        dims.num_samples() as nat,
        |s: int|
            with_gravity(
                dims,
                classified(dims, particles),
                scattered_field(dims, particles),
                marked_field(dims, particles),
                gravity,
                dt_ns as int,
                s,
            ) as i64,
    )
}

/// The divergence of the velocity after gravity.
pub open spec fn step_divergence(
    dims: GridDims,
    gravity: Vec3,
    dt_ns: u64,
    particles: Seq<Particle>,
) -> Seq<i64> {
    divergence_field(dims, classified(dims, particles), forced_field(dims, gravity, dt_ns, particles))
}

/// The pressure that the fixed number of sweeps arrives at.
pub open spec fn step_pressure(
    dims: GridDims,
    gravity: Vec3,
    dt_ns: u64,
    sweeps: u32,
    particles: Seq<Particle>,
) -> Seq<i64> {
    solved_pressure(
        dims,
        classified(dims, particles),
        step_divergence(dims, gravity, dt_ns, particles),
        sweeps as nat,
    )
}

/// The grid velocity after the projection.
pub open spec fn projected_field(
    dims: GridDims,
    gravity: Vec3,
    dt_ns: u64,
    sweeps: u32,
    particles: Seq<Particle>,
) -> Seq<i64> {
    Seq::new(
        dims.num_samples() as nat,
        |s: int|
            corrected(
                dims,
                classified(dims, particles),
                forced_field(dims, gravity, dt_ns, particles),
                step_pressure(dims, gravity, dt_ns, sweeps, particles),
                s,
            ) as i64,
    )
}

/// The particles after one step: gathered from the grid, then advected.
/// The grid fields of a step are made from the particles alone, so the
/// particles of the next step depend on nothing but those of this one.
pub open spec fn stepped_particles(
    dims: GridDims,
    gravity: Vec3,
    dt_ns: u64,
    sweeps: u32,
    particles: Seq<Particle>,
) -> Seq<Particle> {
    Seq::new(
        particles.len(),
        |q: int|
            advected(
                dims,
                dt_ns as int,
                gathered(
                    dims,
                    scattered_field(dims, particles),
                    projected_field(dims, gravity, dt_ns, sweeps, particles),
                    particles[q],
                ),
            ),
    )
}

/// The particles after `n` steps.
pub open spec fn particles_after(
    dims: GridDims,
    gravity: Vec3,
    dt_ns: u64,
    sweeps: u32,
    particles: Seq<Particle>,
    n: nat,
) -> Seq<Particle>
    decreases n,
{
    if n == 0 {
        particles
    } else {
        stepped_particles(
            dims,
            gravity,
            dt_ns,
            sweeps,
            particles_after(dims, gravity, dt_ns, sweeps, particles, (n - 1) as nat),
        )
    }
}

/// The state after one step.
pub open spec fn stepped(s: FluidState) -> FluidState {
    FluidState {
        dims: s.dims,
        dt_ns: s.dt_ns,
        gravity: s.gravity,
        sweeps: s.sweeps,
        capacity: s.capacity,
        particles: stepped_particles(s.dims, s.gravity, s.dt_ns, s.sweeps, s.particles),
        markers: classified(s.dims, s.particles),
        momentum: momentum_field(s.dims, s.particles),
        weights: weight_field(s.dims, s.particles),
        marked: marked_field(s.dims, s.particles),
        velocity: projected_field(s.dims, s.gravity, s.dt_ns, s.sweeps, s.particles),
        divergence: step_divergence(s.dims, s.gravity, s.dt_ns, s.particles),
        pressure: step_pressure(s.dims, s.gravity, s.dt_ns, s.sweeps, s.particles),
    }
}

/// A state that has seen no step: no particles, air everywhere, all at rest.
pub open spec fn initial_state(
    dims: GridDims,
    dt_ns: u64,
    capacity: usize,
    sweeps: u32,
) -> FluidState {
    FluidState {
        dims,
        dt_ns,
        gravity: Vec3 { x: 0, y: 0, z: 0 },
        sweeps,
        capacity,
        particles: Seq::empty(),
        markers: Seq::new(dims.num_cells() as nat, |m: int| Marker::Air),
        momentum: Seq::new(dims.num_samples() as nat, |s: int| 0i128),
        weights: Seq::new(dims.num_samples() as nat, |s: int| 0i128),
        marked: Seq::new(dims.num_samples() as nat, |s: int| false),
        velocity: Seq::new(dims.num_samples() as nat, |s: int| 0i64),
        divergence: Seq::new(dims.num_cells() as nat, |m: int| 0i64),
        pressure: Seq::new(dims.num_cells() as nat, |m: int| 0i64),
    }
}

impl FluidState {
    /// The grid is valid, every buffer has the size of its lattice, and
    /// every particle lies inside the grid with a bounded velocity.
    pub open spec fn wf(self) -> bool {
        &&& self.dims.valid()
        &&& self.dt_ns > 0
        &&& self.particles.len() <= self.capacity <= MAX_PARTICLES
        &&& all_inside(self.dims, self.particles)
        &&& velocities_bounded(self.particles)
        &&& self.markers.len() == self.dims.num_cells()
        &&& self.divergence.len() == self.dims.num_cells()
        &&& self.pressure.len() == self.dims.num_cells()
        &&& self.momentum.len() == self.dims.num_samples()
        &&& self.weights.len() == self.dims.num_samples()
        &&& self.marked.len() == self.dims.num_samples()
        &&& self.velocity.len() == self.dims.num_samples()
    }
}

/// Whether the box from `min` up to `max` lies in the grid.
pub open spec fn cube_in_grid(dims: GridDims, min: CellCorner, max: CellCorner) -> bool {
    &&& max.i <= dims.nx
    &&& max.j <= dims.ny
    &&& max.k <= dims.nz
}

/// The hybrid particle/grid solver.
pub struct HybridFluid {
    dims: GridDims,
    dt_ns: u64,
    gravity: Vec3,
    sweeps: u32,
    particles: ParticleStore,
    markers: Vec<Marker>,
    momentum: Vec<i128>,
    weights: Vec<i128>,
    marked: Vec<bool>,
    velocity: Vec<i64>,
    divergence: Vec<i64>,
    pressure: Vec<i64>,
    residual: i64,
}

impl View for HybridFluid {
    type V = FluidState;

    closed spec fn view(&self) -> FluidState {
        FluidState {
            dims: self.dims,
            dt_ns: self.dt_ns,
            gravity: self.gravity,
            sweeps: self.sweeps,
            capacity: self.particles.spec_capacity(),
            particles: self.particles@,
            markers: self.markers@,
            momentum: self.momentum@,
            weights: self.weights@,
            marked: self.marked@,
            velocity: self.velocity@,
            divergence: self.divergence@,
            pressure: self.pressure@,
        }
    }
}

fn filled<T: Copy>(n: usize, value: T) -> (out: Vec<T>)
    ensures
        out@ == Seq::new(n as nat, |s: int| value),
{
    let mut out: Vec<T> = Vec::new();
    let mut s: usize = 0;
    while s < n
        invariant
            s <= n,
            out@.len() == s,
            forall|t: int| 0 <= t < s ==> #[trigger] out@[t] == value,
        decreases n - s,
    {
        out.push(value);
        s += 1;
    }
    assert(out@ =~= Seq::new(n as nat, |s: int| value));
    out
}

impl HybridFluid {
    pub open spec fn wf(&self) -> bool {
        self@.wf()
    }

    /// What the last step left of the divergence, at its worst cell.
    pub closed spec fn spec_residual(&self) -> i64 {
        self.residual
    }

    /// A solver without particles. Refused: a grid dimension outside
    /// `1..=MAX_DIM`, a zero timestep, a capacity above `MAX_PARTICLES`.
    pub fn new(
        grid_dimension: GridDims,
        max_num_particles: usize,
        fixed_dt_ns: u64,
        pressure_sweeps: u32,
    ) -> (r: Result<HybridFluid, SimError>)
        ensures
            (grid_dimension.valid() && fixed_dt_ns > 0 && max_num_particles <= MAX_PARTICLES)
                <==> r is Ok,
            r is Err ==> r == Err::<HybridFluid, SimError>(SimError::InvalidConfiguration),
            r is Ok ==> r->Ok_0@ == initial_state(
                grid_dimension,
                fixed_dt_ns,
                max_num_particles,
                pressure_sweeps,
            ) && r->Ok_0.wf() && r->Ok_0.spec_residual() == 0,
    {
        let dims = match GridDims::new(grid_dimension.nx, grid_dimension.ny, grid_dimension.nz) {
            Some(d) => d,
            None => {
                return Err(SimError::InvalidConfiguration);
            },
        };
        if fixed_dt_ns == 0 {
            return Err(SimError::InvalidConfiguration);
        }
        let particles = match ParticleStore::new(max_num_particles) {
            Ok(p) => p,
            Err(_) => {
                return Err(SimError::InvalidConfiguration);
            },
        };
        let cells: usize = dims.cell_count();
        let samples: usize = dims.sample_count();
        let fluid = HybridFluid {
            dims,
            dt_ns: fixed_dt_ns,
            gravity: Vec3 { x: 0, y: 0, z: 0 },
            sweeps: pressure_sweeps,
            particles,
            markers: filled(cells, Marker::Air),
            momentum: filled(samples, 0i128),
            weights: filled(samples, 0i128),
            marked: filled(samples, false),
            velocity: filled(samples, 0i64),
            divergence: filled(cells, 0i64),
            pressure: filled(cells, 0i64),
            residual: 0,
        };
        assert(fluid@.particles =~= Seq::empty());
        Ok(fluid)
    }

    pub fn grid_dimension(&self) -> (r: GridDims)
        ensures
            r == self@.dims,
    {
        self.dims
    }

    pub fn fixed_dt_ns(&self) -> (r: u64)
        ensures
            r == self@.dt_ns,
    {
        self.dt_ns
    }

    pub fn gravity_grid(&self) -> (r: Vec3)
        ensures
            r == self@.gravity,
    {
        self.gravity
    }

    /// The fixed number of relaxation sweeps of every pressure solve.
    pub fn pressure_sweeps(&self) -> (r: u32)
        ensures
            r == self@.sweeps,
    {
        self.sweeps
    }

    pub fn num_particles(&self) -> (r: usize)
        ensures
            r == self@.particles.len(),
    {
        self.particles.count()
    }

    pub fn max_num_particles(&self) -> (r: usize)
        ensures
            r == self@.capacity,
    {
        self.particles.capacity()
    }

    /// The particles, for reading until the next step.
    pub fn particles(&self) -> (r: &Vec<Particle>)
        ensures
            r@ == self@.particles,
    {
        self.particles.as_vec()
    }

    /// The marker field of the last step.
    pub fn markers(&self) -> (r: &Vec<Marker>)
        ensures
            r@ == self@.markers,
    {
        &self.markers
    }

    /// The projected grid velocity of the last step.
    pub fn velocity(&self) -> (r: &Vec<i64>)
        ensures
            r@ == self@.velocity,
    {
        &self.velocity
    }

    /// The divergence that the last pressure solve set out from.
    pub fn divergence(&self) -> (r: &Vec<i64>)
        ensures
            r@ == self@.divergence,
    {
        &self.divergence
    }

    pub fn pressure(&self) -> (r: &Vec<i64>)
        ensures
            r@ == self@.pressure,
    {
        &self.pressure
    }

    pub fn residual(&self) -> (r: i64)
        ensures
            r == self.spec_residual(),
    {
        self.residual
    }

    /// Whether the last pressure solve brought the divergence of every cell
    /// to within `threshold`. A `false` is a warning about quality; the
    /// step has been made all the same.
    pub fn has_converged(&self, threshold: i64) -> (r: bool)
        ensures
            r == (self.spec_residual() <= threshold),
    {
        self.residual <= threshold
    }

    /// Sets the acceleration that every later step applies, in grid units.
    pub fn set_gravity_grid(&mut self, gravity: Vec3)
        ensures
            final(self)@ == (FluidState { gravity, ..old(self)@ }),
            final(self).spec_residual() == old(self).spec_residual(),
    {
        self.gravity = gravity;
    }

    /// Zeroes the scratch buffers that the scatter accumulates into.
    pub fn clear_velocity_accumulators(&mut self)
        requires
            old(self).wf(),
        ensures
            final(self)@ == (FluidState {
                momentum: Seq::new(old(self)@.dims.num_samples() as nat, |s: int| 0i128),
                weights: Seq::new(old(self)@.dims.num_samples() as nat, |s: int| 0i128),
                ..old(self)@
            }),
            final(self).spec_residual() == old(self).spec_residual(),
    {
        let n: usize = self.dims.sample_count();
        let mut s: usize = 0;
        while s < n
            invariant
                s <= n,
                self.momentum@.len() == n,
                self.weights@.len() == n,
                self.dims == old(self).dims,
                self.dt_ns == old(self).dt_ns,
                self.gravity == old(self).gravity,
                self.sweeps == old(self).sweeps,
                self.particles == old(self).particles,
                self.markers == old(self).markers,
                self.marked == old(self).marked,
                self.velocity == old(self).velocity,
                self.divergence == old(self).divergence,
                self.pressure == old(self).pressure,
                self.residual == old(self).residual,
                forall|t: int| 0 <= t < s ==> #[trigger] self.momentum@[t] == 0,
                forall|t: int| 0 <= t < s ==> #[trigger] self.weights@[t] == 0,
            decreases n - s,
        {
            self.momentum.set(s, 0);
            self.weights.set(s, 0);
            s += 1;
        }
        assert(self.momentum@ =~= Seq::new(n as nat, |s: int| 0i128));
        assert(self.weights@ =~= Seq::new(n as nat, |s: int| 0i128));
    }

    /// Fills the box of cells from `min` up to, not including, `max` with
    /// particles at rest. A box that reaches outside the grid is refused,
    /// and so is one whose particles do not fit; either way nothing changes.
    pub fn add_fluid_cube(&mut self, min: CellCorner, max: CellCorner) -> (r: Result<(), SimError>)
        requires
            old(self).wf(),
        ensures
            final(self).wf(),
            final(self).spec_residual() == old(self).spec_residual(),
            !cube_in_grid(old(self)@.dims, min, max) <==> r == Err::<(), SimError>(
                SimError::InvalidConfiguration,
            ),
            (cube_in_grid(old(self)@.dims, min, max) && old(self)@.particles.len() + cube_count(
                min,
                max,
            ) > old(self)@.capacity) <==> r == Err::<(), SimError>(SimError::CapacityExceeded),
            r is Err ==> final(self)@ == old(self)@,
            r is Ok ==> final(self)@ == (FluidState {
                particles: old(self)@.particles + cube_particles(min, max),
                ..old(self)@
            }),
    {
        if max.i > self.dims.nx || max.j > self.dims.ny || max.k > self.dims.nz {
            return Err(SimError::InvalidConfiguration);
        }
        let ghost before = self.particles@;
        match self.particles.add_cube(min, max) {
            Ok(()) => {
                proof {
                    let dims = self.dims;
                    let added = cube_particles(min, max);
                    assert forall|q: int| 0 <= q < self.particles@.len() implies inside(
                        dims,
                        (#[trigger] self.particles@[q]).position,
                    ) && self.particles@[q].velocity.within(VEL_MAX as int) by {
                        if q >= before.len() {
                            let m = q - before.len();
                            assert(self.particles@[q] == added[m]);
                            lemma_cube_particle_inside(dims, min, max, m);
                        } else {
                            assert(self.particles@[q] == before[q]);
                        }
                    }
                }
                Ok(())
            },
            Err(_) => Err(SimError::CapacityExceeded),
        }
    }

    /// Adds one particle. Refused: a position that is not strictly inside
    /// the grid or a velocity beyond `VEL_MAX`, as invalid; a full store,
    /// as exceeding the capacity. Either way nothing changes.
    pub fn add_particle(&mut self, p: Particle) -> (r: Result<(), SimError>)
        requires
            old(self).wf(),
        ensures
            final(self).wf(),
            final(self).spec_residual() == old(self).spec_residual(),
            !(inside(old(self)@.dims, p.position) && p.velocity.within(VEL_MAX as int)) <==> r
                == Err::<(), SimError>(SimError::InvalidConfiguration),
            (inside(old(self)@.dims, p.position) && p.velocity.within(VEL_MAX as int) && old(
                self,
            )@.particles.len() >= old(self)@.capacity) <==> r == Err::<(), SimError>(
                SimError::CapacityExceeded,
            ),
            r is Err ==> final(self)@ == old(self)@,
            r is Ok ==> final(self)@ == (FluidState {
                particles: old(self)@.particles.push(p),
                ..old(self)@
            }),
    {
        let inside_grid: bool = 1 <= p.position.x && p.position.x <= (self.dims.nx as i64) * ONE - 1
            && 1 <= p.position.y && p.position.y <= (self.dims.ny as i64) * ONE - 1 && 1
            <= p.position.z && p.position.z <= (self.dims.nz as i64) * ONE - 1;
        let slow: bool = -VEL_MAX <= p.velocity.x && p.velocity.x <= VEL_MAX && -VEL_MAX
            <= p.velocity.y && p.velocity.y <= VEL_MAX && -VEL_MAX <= p.velocity.z && p.velocity.z
            <= VEL_MAX;
        if !(inside_grid && slow) {
            return Err(SimError::InvalidConfiguration);
        }
        let ghost before = self.particles@;
        match self.particles.add_particle(p) {
            Ok(()) => {
                proof {
                    let dims = self.dims;
                    assert forall|q: int| 0 <= q < self.particles@.len() implies inside(
                        dims,
                        (#[trigger] self.particles@[q]).position,
                    ) && self.particles@[q].velocity.within(VEL_MAX as int) by {
                        if q < before.len() {
                            assert(self.particles@[q] == before[q]);
                        }
                    }
                }
                Ok(())
            },
            Err(_) => Err(SimError::CapacityExceeded),
        }
    }

    /// One step of the fixed timestep: classify, clear the accumulators,
    /// scatter, gravity, divergence, pressure solve, velocity correction,
    /// gather, advect, in this order. No particle is added or lost, and
    /// every particle ends the step inside the grid.
    pub fn step(&mut self)
        requires
            old(self).wf(),
        ensures
            final(self).wf(),
            final(self)@ == stepped(old(self)@),
            final(self)@.particles.len() == old(self)@.particles.len(),
            all_inside(final(self)@.dims, final(self)@.particles),
            is_max_magnitude(
                divergence_field(final(self)@.dims, final(self)@.markers, final(self)@.velocity),
                final(self).spec_residual() as int,
            ),
    {
        let markers: Vec<Marker> = classify(&self.dims, self.particles.as_vec());
        self.clear_velocity_accumulators();
        let (before, marked) = scatter(
            &self.dims,
            self.particles.as_vec(),
            &mut self.momentum,
            &mut self.weights,
        );
        let forced: Vec<i64> = apply_gravity(
            &self.dims,
            &markers,
            &before,
            &marked,
            self.gravity,
            self.dt_ns,
        );
        let divergence: Vec<i64> = compute_divergence(&self.dims, &markers, &forced);
        let pressure: Vec<i64> = solve_pressure(&self.dims, &markers, &divergence, self.sweeps);
        let after: Vec<i64> = correct_velocity(&self.dims, &markers, &forced, &pressure);
        let with_velocity: Vec<Particle> = gather(
            &self.dims,
            &before,
            &after,
            self.particles.as_vec(),
        );
        let moved: Vec<Particle> = advect(&self.dims, self.dt_ns, &with_velocity);
        let leftover: Vec<i64> = compute_divergence(&self.dims, &markers, &after);
        self.residual = max_magnitude(&leftover);
        proof {
            let s = old(self)@;
            assert(before@ =~= scattered_field(s.dims, s.particles));
            assert(marked@ =~= marked_field(s.dims, s.particles));
            assert(forced@ =~= forced_field(s.dims, s.gravity, s.dt_ns, s.particles));
            assert(after@ =~= projected_field(s.dims, s.gravity, s.dt_ns, s.sweeps, s.particles));
            assert(moved@ =~= stepped_particles(
                s.dims,
                s.gravity,
                s.dt_ns,
                s.sweeps,
                s.particles,
            ));
            assert(self.momentum@ =~= momentum_field(s.dims, s.particles));
            assert(self.weights@ =~= weight_field(s.dims, s.particles));
        }
        self.particles.replace_all(moved);
        self.markers = markers;
        self.marked = marked;
        self.velocity = after;
        self.divergence = divergence;
        self.pressure = pressure;
    }
}

/// Every particle of a fill that lies in the grid is strictly inside it.
pub proof fn lemma_cube_particle_inside(dims: GridDims, min: CellCorner, max: CellCorner, m: int)
    requires
        dims.valid(),
        cube_in_grid(dims, min, max),
        0 <= m < cube_count(min, max),
    ensures
        inside(dims, cube_particle(min, max, m).position),
        cube_particle(min, max, m).velocity == (Vec3 { x: 0, y: 0, z: 0 }),
{
    let w = span(min.i, max.i);
    let h = span(min.j, max.j);
    let d = span(min.k, max.k);
    let c = m / 8;
    assert(0 <= c < w * h * d) by (nonlinear_arith)
        requires
            0 <= m < 8 * (w * h * d),
            c == m / 8,
    ;
    lemma_cube_cell(w, h, d, c);
}

/// The state after `n` steps.
pub open spec fn state_after(s: FluidState, n: nat) -> FluidState
    decreases n,
{
    if n == 0 {
        s
    } else {
        stepped(state_after(s, (n - 1) as nat))
    }
}

/// One step neither adds nor loses a particle, and leaves every particle
/// strictly inside the grid with a bounded velocity, wherever the particles
/// were and whatever the gravity.
pub proof fn lemma_step_keeps_particles(
    dims: GridDims,
    gravity: Vec3,
    dt_ns: u64,
    sweeps: u32,
    particles: Seq<Particle>,
)
    requires
        dims.valid(),
    ensures
        stepped_particles(dims, gravity, dt_ns, sweeps, particles).len() == particles.len(),
        all_inside(dims, stepped_particles(dims, gravity, dt_ns, sweeps, particles)),
        velocities_bounded(stepped_particles(dims, gravity, dt_ns, sweeps, particles)),
{
    let next = stepped_particles(dims, gravity, dt_ns, sweeps, particles);
    assert forall|q: int| 0 <= q < next.len() implies inside(dims, (#[trigger] next[q]).position)
        && next[q].velocity.within(VEL_MAX as int) by {
        let g = gathered(
            dims,
            scattered_field(dims, particles),
            projected_field(dims, gravity, dt_ns, sweeps, particles),
            particles[q],
        );
        lemma_advected_inside(dims, dt_ns as int, g);
    }
}

/// Over any number of steps the number of particles stays what it was, and
/// after every step each particle lies strictly inside the grid; particles
/// that start inside are inside throughout.
pub proof fn lemma_steps_keep_particles(
    dims: GridDims,
    gravity: Vec3,
    dt_ns: u64,
    sweeps: u32,
    particles: Seq<Particle>,
    n: nat,
)
    requires
        dims.valid(),
    ensures
        particles_after(dims, gravity, dt_ns, sweeps, particles, n).len() == particles.len(),
        n > 0 || all_inside(dims, particles) ==> all_inside(
            dims,
            particles_after(dims, gravity, dt_ns, sweeps, particles, n),
        ),
    decreases n,
{
    if n > 0 {
        lemma_steps_keep_particles(dims, gravity, dt_ns, sweeps, particles, (n - 1) as nat);
        lemma_step_keeps_particles(
            dims,
            gravity,
            dt_ns,
            sweeps,
            particles_after(dims, gravity, dt_ns, sweeps, particles, (n - 1) as nat),
        );
    }
}

/// The particles of the state after `n` steps are the particles after `n`
/// steps; grid, timestep, gravity and capacity stay what they were.
pub proof fn lemma_state_after(s: FluidState, n: nat)
    ensures
        state_after(s, n).particles == particles_after(
            s.dims,
            s.gravity,
            s.dt_ns,
            s.sweeps,
            s.particles,
            n,
        ),
        state_after(s, n).dims == s.dims,
        state_after(s, n).gravity == s.gravity,
        state_after(s, n).dt_ns == s.dt_ns,
        state_after(s, n).sweeps == s.sweeps,
        state_after(s, n).capacity == s.capacity,
    decreases n,
{
    if n > 0 {
        lemma_state_after(s, (n - 1) as nat);
    }
}

} // verus!
