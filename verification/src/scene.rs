//! A scene: the description a simulation is loaded from, and the solver
//! that was built from it.

use vstd::prelude::*;
use crate::error::SimError;
use crate::fixed::{clamp, clamp_to, div_toward_zero, trunc_div, Vec3, ONE, VEL_MAX};
use crate::grid::GridDims;
use crate::particles::{cube_count, cube_particles, CellCorner, Particle, MAX_PARTICLES};
use crate::solver::{cube_in_grid, initial_state, stepped, FluidState, HybridFluid};

verus! {

/// A box of cells to fill with particles, from `min` up to, not including, `max`.
#[derive(Clone, Copy, Debug, PartialEq, Eq, Structural)]
pub struct FluidCube {
    pub min: CellCorner,
    pub max: CellCorner,
}

/// Where the grid lies in the world and how large it is.
#[derive(Clone, Copy, Debug, PartialEq, Eq, Structural)]
pub struct FluidConfig {
    /// World position of the grid's origin.
    pub world_position: Vec3,
    /// World length of one cell, in fixed point.
    pub grid_to_world_scale: i64,
    pub grid_dimension: GridDims,
    /// The fixed allocation of particles.
    pub max_num_particles: usize,
    /// Relaxation sweeps of every pressure solve.
    pub pressure_sweeps: u32,
}

/// Data describing a new scene.
pub struct SceneConfig {
    /// Global gravity, in world space.
    pub gravity: Vec3,
    pub fluid: FluidConfig,
    /// The fixed timestep of the simulation.
    pub fixed_dt_ns: u64,
    /// The regions that hold fluid at the start.
    pub fills: Vec<FluidCube>,
}

/// An acceleration along one axis in grid units, given in world units.
pub open spec fn to_grid_units(world: int, scale: int) -> int
    recommends
        scale > 0,
{
    clamp(trunc_div(world * ONE, scale), -VEL_MAX as int, VEL_MAX as int)
}

/// Gravity in grid units.
pub open spec fn grid_gravity(gravity: Vec3, scale: i64) -> Vec3 {
    Vec3 {
        x: to_grid_units(gravity.x as int, scale as int) as i64,
        y: to_grid_units(gravity.y as int, scale as int) as i64,
        z: to_grid_units(gravity.z as int, scale as int) as i64,
    }
}

/// Particles of the first `upto` fills together.
pub open spec fn fills_count(fills: Seq<FluidCube>, upto: int) -> int
    decreases upto,
{
    if upto <= 0 {
        0
    } else {
        fills_count(fills, upto - 1) + cube_count(fills[upto - 1].min, fills[upto - 1].max)
    }
}

/// The particles of the first `upto` fills, one fill after the other.
pub open spec fn fills_particles(fills: Seq<FluidCube>, upto: int) -> Seq<Particle>
    decreases upto,
{
    if upto <= 0 {
        Seq::empty()
    } else {
        fills_particles(fills, upto - 1) + cube_particles(fills[upto - 1].min, fills[upto - 1].max)
    }
}

/// Whether every fill lies in the grid.
pub open spec fn fills_in_grid(dims: GridDims, fills: Seq<FluidCube>) -> bool {
    forall|f: int| 0 <= f < fills.len() ==> cube_in_grid(dims, (#[trigger] fills[f]).min, fills[f].max)
}

/// Whether a simulation can run with the description at all.
pub open spec fn config_valid(config: &SceneConfig) -> bool {
    &&& config.fluid.grid_dimension.valid()
    &&& config.fluid.grid_to_world_scale > 0
    &&& config.fluid.max_num_particles <= MAX_PARTICLES
    &&& config.fixed_dt_ns > 0
    &&& fills_in_grid(config.fluid.grid_dimension, config.fills@)
}

/// Whether the fills fit into the allocation.
pub open spec fn config_fits(config: &SceneConfig) -> bool {
    fills_count(config.fills@, config.fills@.len() as int) <= config.fluid.max_num_particles
}

/// The solver state that a description loads to.
pub open spec fn loaded_state(config: &SceneConfig) -> FluidState {
    FluidState {
        gravity: grid_gravity(config.gravity, config.fluid.grid_to_world_scale),
        particles: fills_particles(config.fills@, config.fills@.len() as int),
        ..initial_state(
            config.fluid.grid_dimension,
            config.fixed_dt_ns,
            config.fluid.max_num_particles,
            config.fluid.pressure_sweeps,
        )
    }
}

/// The number of particles of the fills grows with every fill.
pub proof fn lemma_fills_count_grows(fills: Seq<FluidCube>, a: int, b: int)
    requires
        0 <= a <= b <= fills.len(),
    ensures
        0 <= fills_count(fills, a) <= fills_count(fills, b),
        fills_particles(fills, a).len() == fills_count(fills, a),
    decreases b,
{
    if a < b {
        lemma_fills_count_grows(fills, a, b - 1);
        let f = fills[b - 1];
        assert(cube_count(f.min, f.max) >= 0) by (nonlinear_arith)
            requires
                cube_count(f.min, f.max) == 8 * (crate::particles::span(f.min.i, f.max.i)
                    * crate::particles::span(f.min.j, f.max.j) * crate::particles::span(
                    f.min.k,
                    f.max.k,
                )),
                crate::particles::span(f.min.i, f.max.i) >= 0,
                crate::particles::span(f.min.j, f.max.j) >= 0,
                crate::particles::span(f.min.k, f.max.k) >= 0,
        ;
    } else if a > 0 {
        lemma_fills_count_grows(fills, a - 1, a - 1);
        let f = fills[a - 1];
        assert(cube_count(f.min, f.max) >= 0) by (nonlinear_arith)
            requires
                cube_count(f.min, f.max) == 8 * (crate::particles::span(f.min.i, f.max.i)
                    * crate::particles::span(f.min.j, f.max.j) * crate::particles::span(
                    f.min.k,
                    f.max.k,
                )),
                crate::particles::span(f.min.i, f.max.i) >= 0,
                crate::particles::span(f.min.j, f.max.j) >= 0,
                crate::particles::span(f.min.k, f.max.k) >= 0,
        ;
    }
}

fn gravity_axis(world: i64, scale: i64) -> (r: i64)
    requires
        scale > 0,
    ensures
        r == to_grid_units(world as int, scale as int),
{
    clamp_to(div_toward_zero((world as i128) * 65536, scale as i128), -VEL_MAX, VEL_MAX)
}

/// Turns a world-space acceleration into grid units.
pub fn gravity_to_grid(gravity: Vec3, scale: i64) -> (r: Vec3)
    requires
        scale > 0,
    ensures
        r == grid_gravity(gravity, scale),
{
    Vec3 {
        x: gravity_axis(gravity.x, scale),
        y: gravity_axis(gravity.y, scale),
        z: gravity_axis(gravity.z, scale),
    }
}

/// Builds the solver that a description asks for. The description is
/// checked in full before anything is built: it is invalid if a grid
/// dimension, the cell scale, the timestep or the capacity is out of range
/// or a fill reaches outside the grid; a valid one whose fills do not fit
/// exceeds the capacity.
pub fn build_fluid(config: &SceneConfig) -> (r: Result<HybridFluid, SimError>)
    ensures
        !config_valid(config) <==> r == Err::<HybridFluid, SimError>(SimError::InvalidConfiguration),
        config_valid(config) && !config_fits(config) <==> r == Err::<HybridFluid, SimError>(
            SimError::CapacityExceeded,
        ),
        r is Ok ==> r->Ok_0.wf() && r->Ok_0@ == loaded_state(config) && r->Ok_0.spec_residual()
            == 0,
{
    if config.fluid.grid_to_world_scale <= 0 {
        return Err(SimError::InvalidConfiguration);
    }
    let mut fluid = match HybridFluid::new(
        config.fluid.grid_dimension,
        config.fluid.max_num_particles,
        config.fixed_dt_ns,
        config.fluid.pressure_sweeps,
    ) {
        Ok(f) => f,
        Err(_) => {
            return Err(SimError::InvalidConfiguration);
        },
    };
    let dims = config.fluid.grid_dimension;
    let mut f: usize = 0;
    while f < config.fills.len()
        invariant
            f <= config.fills@.len(),
            dims == config.fluid.grid_dimension,
            forall|g: int|
                0 <= g < f ==> cube_in_grid(dims, (#[trigger] config.fills@[g]).min, config.fills@[g].max),
        decreases config.fills@.len() - f,
    {
        let cube: FluidCube = config.fills[f];
        if cube.max.i > dims.nx || cube.max.j > dims.ny || cube.max.k > dims.nz {
            assert(!cube_in_grid(dims, config.fills@[f as int].min, config.fills@[f as int].max));
            return Err(SimError::InvalidConfiguration);
        }
        f += 1;
    }
    fluid.set_gravity_grid(gravity_to_grid(config.gravity, config.fluid.grid_to_world_scale));
    let mut f: usize = 0;
    while f < config.fills.len()
        invariant
            f <= config.fills@.len(),
            config_valid(config),
            dims == config.fluid.grid_dimension,
            fluid.wf(),
            fluid.spec_residual() == 0,
            fluid@ == (FluidState {
                particles: fills_particles(config.fills@, f as int),
                ..loaded_state(config)
            }),
        decreases config.fills@.len() - f,
    {
        let cube: FluidCube = config.fills[f];
        proof {
            lemma_fills_count_grows(config.fills@, f as int, f as int);
            lemma_fills_count_grows(config.fills@, f + 1, config.fills@.len() as int);
            assert(cube_in_grid(dims, config.fills@[f as int].min, config.fills@[f as int].max));
        }
        let ghost held = fluid@.particles.len();
        match fluid.add_fluid_cube(cube.min, cube.max) {
            Ok(()) => {},
            Err(e) => {
                assert(e == SimError::CapacityExceeded);
                assert(held == fills_count(config.fills@, f as int));
                assert(fills_count(config.fills@, f + 1) == held + cube_count(cube.min, cube.max));
                return Err(SimError::CapacityExceeded);
            },
        }
        f += 1;
    }
    proof {
        lemma_fills_count_grows(
            config.fills@,
            config.fills@.len() as int,
            config.fills@.len() as int,
        );
    }
    Ok(fluid)
}

/// Scene data and simulation.
pub struct Scene {
    hybrid_fluid: HybridFluid,
    config: SceneConfig,
}

impl Scene {
    pub closed spec fn spec_fluid(&self) -> HybridFluid {
        self.hybrid_fluid
    }

    pub closed spec fn spec_config(&self) -> SceneConfig {
        self.config
    }

    /// The description that the scene was loaded from.
    pub fn config(&self) -> (r: &SceneConfig)
        ensures
            *r == self.spec_config(),
    {
        &self.config
    }

    /// The description can be loaded, and the solver is one that it loads to.
    pub open spec fn wf(&self) -> bool {
        &&& config_valid(&self.spec_config())
        &&& config_fits(&self.spec_config())
        &&& self.spec_fluid().wf()
        &&& self.spec_fluid()@.dims == self.spec_config().fluid.grid_dimension
        &&& self.spec_fluid()@.dt_ns == self.spec_config().fixed_dt_ns
        &&& self.spec_fluid()@.capacity == self.spec_config().fluid.max_num_particles
        &&& self.spec_fluid()@.sweeps == self.spec_config().fluid.pressure_sweeps
    }

    /// Loads a scene. See `build_fluid` for what is refused.
    pub fn new(config: SceneConfig) -> (r: Result<Scene, SimError>)
        ensures
            !config_valid(&config) <==> r == Err::<Scene, SimError>(SimError::InvalidConfiguration),
            config_valid(&config) && !config_fits(&config) <==> r == Err::<Scene, SimError>(
                SimError::CapacityExceeded,
            ),
            r is Ok ==> {
                &&& r->Ok_0.wf()
                &&& r->Ok_0.spec_config() == config
                &&& r->Ok_0.spec_fluid()@ == loaded_state(&config)
            },
    {
        match build_fluid(&config) {
            Ok(hybrid_fluid) => Ok(Scene { hybrid_fluid, config }),
            Err(e) => Err(e),
        }
    }

    /// Puts the fluid back to what the description loads to.
    pub fn reset(&mut self)
        requires
            old(self).wf(),
        ensures
            final(self).wf(),
            final(self).spec_config() == old(self).spec_config(),
            final(self).spec_fluid()@ == loaded_state(&old(self).spec_config()),
    {
        match build_fluid(&self.config) {
            Ok(hybrid_fluid) => {
                self.hybrid_fluid = hybrid_fluid;
            },
            Err(e) => {
                assert(e == SimError::InvalidConfiguration || e == SimError::CapacityExceeded);
            },
        }
    }

    /// Changes the gravity, given in world space, for every later step.
    pub fn set_gravity(&mut self, gravity: Vec3)
        requires
            old(self).wf(),
        ensures
            final(self).wf(),
            final(self).spec_config().gravity == gravity,
            final(self).spec_config().fluid == old(self).spec_config().fluid,
            final(self).spec_config().fixed_dt_ns == old(self).spec_config().fixed_dt_ns,
            final(self).spec_config().fills == old(self).spec_config().fills,
            final(self).spec_fluid()@ == (FluidState {
                gravity: grid_gravity(gravity, old(self).spec_config().fluid.grid_to_world_scale),
                ..old(self).spec_fluid()@
            }),
    {
        self.config.gravity = gravity;
        self.hybrid_fluid.set_gravity_grid(
            gravity_to_grid(gravity, self.config.fluid.grid_to_world_scale),
        );
    }

    /// One step of the fixed timestep.
    pub fn step(&mut self)
        requires
            old(self).wf(),
        ensures
            final(self).wf(),
            final(self).spec_config() == old(self).spec_config(),
            final(self).spec_fluid()@ == stepped(old(self).spec_fluid()@),
    {
        self.hybrid_fluid.step();
    }

    /// The solver, for reading until the next step.
    pub fn fluid(&self) -> (r: &HybridFluid)
        ensures
            *r == self.spec_fluid(),
    {
        &self.hybrid_fluid
    }
}

} // verus!
