use blub::error::SimError;
use blub::fixed::{Vec3, ONE, VEL_MAX};
use blub::grid::{classify, GridDims, Marker, MAX_DIM};
use blub::particles::{CellCorner, Particle, ParticleStore, MAX_PARTICLES};
use blub::projection::{apply_gravity, compute_divergence, correct_velocity, max_magnitude, solve_pressure};
use blub::scene::{build_fluid, gravity_to_grid, FluidConfig, FluidCube, Scene, SceneConfig};
use blub::scheduler::{ResumeMode, SchedulerStatus};
use blub::simulation::{ApplicationEvent, Simulation};
use blub::solver::HybridFluid;
use blub::transfer::{gather, interpolate_at, sample_sums, scatter};
use blub::advection::advect_particle;
use blub::renderer::{
    num_grid_cells, DrawPlan, DrawRange, FluidRenderingMode, GlobalRenderSettingsUniformBufferContent,
    SceneRenderer, VolumeRenderer, VolumeVisualizationMode,
};

const DT: u64 = 16_666_667;

fn fx(v: f64) -> i64 {
    (v * ONE as f64).round() as i64
}

fn as_float(v: i64) -> f64 {
    v as f64 / ONE as f64
}

fn vec3(x: f64, y: f64, z: f64) -> Vec3 {
    Vec3 { x: fx(x), y: fx(y), z: fx(z) }
}

fn corner(i: u32, j: u32, k: u32) -> CellCorner {
    CellCorner { i, j, k }
}

fn dims(nx: u32, ny: u32, nz: u32) -> GridDims {
    GridDims::new(nx, ny, nz).unwrap()
}

fn at_rest(x: f64, y: f64, z: f64) -> Particle {
    Particle { position: vec3(x, y, z), velocity: vec3(0.0, 0.0, 0.0) }
}

fn config(nx: u32, ny: u32, nz: u32, capacity: usize, fills: Vec<FluidCube>) -> SceneConfig {
    SceneConfig {
        gravity: vec3(0.0, -9.8, 0.0),
        fluid: FluidConfig {
            world_position: vec3(0.0, 0.0, 0.0),
            grid_to_world_scale: ONE,
            grid_dimension: GridDims { nx, ny, nz },
            max_num_particles: capacity,
            pressure_sweeps: 16,
        },
        fixed_dt_ns: DT,
        fills,
    }
}

#[test]
fn grid_dimensions_must_be_positive_and_bounded() {
    assert!(GridDims::new(0, 4, 4).is_none());
    assert!(GridDims::new(4, 0, 4).is_none());
    assert!(GridDims::new(4, 4, 0).is_none());
    assert!(GridDims::new(MAX_DIM + 1, 4, 4).is_none());
    assert_eq!(GridDims::new(128, 64, 64), Some(GridDims { nx: 128, ny: 64, nz: 64 }));
}

#[test]
fn cells_and_samples_are_numbered_along_x_first() {
    let d = dims(4, 3, 2);
    assert_eq!(d.cell_count(), 24);
    assert_eq!(d.node_count(), 60);
    assert_eq!(d.sample_count(), 180);
    assert_eq!(d.cell_number(1, 2, 1), (1 * 3 + 2) * 4 + 1);
    assert_eq!(d.cell_coords(21), (1, 2, 1));
    assert_eq!(d.sample_number(2, 4, 3, 2), 2 * 60 + (2 * 4 + 3) * 5 + 4);
    assert_eq!(d.sample_coords(2 * 60 + 59), (2, 4, 3, 2));
    assert!(d.has_face(0, 4, 2, 1));
    assert!(!d.has_face(0, 4, 3, 1));
    assert!(d.has_face(1, 3, 3, 1));
    assert!(!d.has_face(1, 4, 3, 1));
}

#[test]
fn store_fills_eight_particles_per_cell() {
    let mut store = ParticleStore::new(100).unwrap();
    assert_eq!(store.count(), 0);
    assert_eq!(store.add_cube(corner(1, 1, 1), corner(3, 2, 2)), Ok(()));
    assert_eq!(store.count(), 16);
    assert_eq!(store.get(0), at_rest(1.25, 1.25, 1.25));
    assert_eq!(store.get(1), at_rest(1.75, 1.25, 1.25));
    assert_eq!(store.get(2), at_rest(1.25, 1.75, 1.25));
    assert_eq!(store.get(4), at_rest(1.25, 1.25, 1.75));
    assert_eq!(store.get(7), at_rest(1.75, 1.75, 1.75));
    assert_eq!(store.get(8), at_rest(2.25, 1.25, 1.25));
    assert_eq!(store.get(15), at_rest(2.75, 1.75, 1.75));
}

#[test]
fn store_refuses_a_fill_that_does_not_fit_and_stays_unchanged() {
    let mut store = ParticleStore::new(20).unwrap();
    store.add_cube(corner(0, 0, 0), corner(2, 1, 1)).unwrap();
    let before: Vec<Particle> = store.as_vec().clone();
    assert_eq!(store.add_cube(corner(0, 0, 0), corner(1, 1, 1)), Err(SimError::CapacityExceeded));
    assert_eq!(store.count(), 16);
    assert_eq!(store.as_vec(), &before);
    assert_eq!(store.capacity(), 20);
    // an empty box always fits
    assert_eq!(store.add_cube(corner(3, 3, 3), corner(3, 9, 9)), Ok(()));
    assert_eq!(store.add_cube(corner(5, 5, 5), corner(1, 9, 9)), Ok(()));
    assert_eq!(store.count(), 16);
}

#[test]
fn store_capacity_is_bounded() {
    assert!(matches!(ParticleStore::new(MAX_PARTICLES + 1), Err(SimError::InvalidConfiguration)));
    assert!(ParticleStore::new(MAX_PARTICLES).is_ok());
    let mut one = ParticleStore::new(1).unwrap();
    assert_eq!(one.add_particle(at_rest(0.5, 0.5, 0.5)), Ok(()));
    assert_eq!(one.add_particle(at_rest(0.5, 0.5, 0.5)), Err(SimError::CapacityExceeded));
    assert_eq!(one.count(), 1);
}

#[test]
fn classify_marks_occupied_cells_fluid_and_the_rest_air() {
    let d = dims(4, 4, 4);
    let particles = vec![at_rest(1.5, 2.5, 3.5), at_rest(1.9, 2.1, 3.0), at_rest(0.0, 0.0, 0.0)];
    let markers = classify(&d, &particles);
    assert_eq!(markers.len(), 64);
    for (m, marker) in markers.iter().enumerate() {
        let expected = if m == d.cell_number(1, 2, 3) || m == 0 { Marker::Fluid } else { Marker::Air };
        assert_eq!(*marker, expected);
    }
    assert_eq!(blub::grid::marker_of(&d, &markers, 1, 2, 3), Marker::Fluid);
    assert_eq!(blub::grid::marker_of(&d, &markers, 2, 2, 3), Marker::Air);
    assert_eq!(blub::grid::marker_of(&d, &markers, -1, 2, 3), Marker::Solid);
    assert_eq!(blub::grid::marker_of(&d, &markers, 1, 4, 3), Marker::Solid);
}

#[test]
fn scatter_normalizes_only_after_all_particles_are_in() {
    let d = dims(2, 2, 2);
    let slow = Particle { position: vec3(0.5, 0.75, 0.5), velocity: vec3(0.0, 1.0, 0.0) };
    let fast = Particle { position: vec3(0.5, 0.25, 0.5), velocity: vec3(0.0, 3.0, 0.0) };
    let particles = vec![slow, fast];
    // y-sample (0, 0, 0) lies at (0.5, 0, 0.5): weights 0.25 and 0.75
    let (momentum, weight) = sample_sums(&particles, 1, 0, 0, 0);
    let one_cubed = (ONE as i128).pow(3);
    assert_eq!(weight, one_cubed);
    assert_eq!(momentum, (one_cubed / 4) * fx(1.0) as i128 + (one_cubed / 4 * 3) * fx(3.0) as i128);
    let n = d.sample_count();
    let mut momenta = vec![0i128; n];
    let mut weights = vec![0i128; n];
    let (velocity, marked) = scatter(&d, &particles, &mut momenta, &mut weights);
    let s = d.sample_number(1, 0, 0, 0);
    assert_eq!(velocity[s], fx(2.5));
    assert!(marked[s]);
    assert_eq!(weights[s], weight);
    assert_eq!(momenta[s], momentum);
    let t = d.sample_number(1, 0, 1, 0);
    assert_eq!(velocity[t], fx(1.5));
    // no particle reaches the far corner
    let far = d.sample_number(1, 1, 2, 1);
    assert_eq!(velocity[far], 0);
    assert!(!marked[far]);
    assert_eq!(weights[far], 0);
    // a node that is no face of the grid stays zero and unmarked
    let off = d.sample_number(1, 2, 0, 0);
    assert_eq!(velocity[off], 0);
    assert!(!marked[off]);
}

#[test]
fn interpolation_reads_back_what_one_particle_scattered() {
    let d = dims(4, 4, 4);
    let p = Particle { position: vec3(1.3, 2.6, 1.9), velocity: vec3(0.5, -2.0, 1.25) };
    let particles = vec![p];
    let n = d.sample_count();
    let mut momenta = vec![0i128; n];
    let mut weights = vec![0i128; n];
    let (velocity, _) = scatter(&d, &particles, &mut momenta, &mut weights);
    for axis in 0..3u8 {
        let got = interpolate_at(&d, &velocity, axis, &p.position);
        let want = p.velocity.get(axis);
        assert!((got - want).abs() <= 1, "axis {}: {} against {}", axis, got, want);
    }
}

#[test]
fn gravity_reaches_marked_samples_and_walls_stay_closed() {
    let d = dims(2, 2, 2);
    let particles = vec![at_rest(0.5, 0.5, 0.5)];
    let markers = classify(&d, &particles);
    let n = d.sample_count();
    let mut momenta = vec![0i128; n];
    let mut weights = vec![0i128; n];
    let (velocity, marked) = scatter(&d, &particles, &mut momenta, &mut weights);
    let g = vec3(0.0, -9.8, 0.0);
    let forced = apply_gravity(&d, &markers, &velocity, &marked, g, DT);
    let gain = -((-(g.y as i128) * DT as i128 / 1_000_000_000) as i64);
    assert_eq!(gain, -10704);
    // the floor face is a wall
    assert_eq!(forced[d.sample_number(1, 0, 0, 0)], 0);
    // the face above the particle carries fluid
    assert_eq!(forced[d.sample_number(1, 0, 1, 0)], gain);
    // samples that no particle reached keep their value
    assert_eq!(forced[d.sample_number(1, 1, 1, 1)], 0);
    // no gravity along x
    assert_eq!(forced[d.sample_number(0, 1, 0, 0)], 0);
}

#[test]
fn projection_removes_the_divergence_of_a_single_cell() {
    let d = dims(3, 3, 3);
    let particles = vec![at_rest(1.5, 1.5, 1.5)];
    let markers = classify(&d, &particles);
    let mut velocity = vec![0i64; d.sample_count()];
    velocity[d.sample_number(0, 2, 1, 1)] = 600;
    velocity[d.sample_number(1, 1, 1, 1)] = -600;
    let divergence = compute_divergence(&d, &markers, &velocity);
    let centre = d.cell_number(1, 1, 1);
    for (m, v) in divergence.iter().enumerate() {
        assert_eq!(*v, if m == centre { 1200 } else { 0 });
    }
    assert_eq!(max_magnitude(&divergence), 1200);
    let none = solve_pressure(&d, &markers, &divergence, 0);
    assert!(none.iter().all(|p| *p == 0));
    let pressure = solve_pressure(&d, &markers, &divergence, 1);
    for (m, p) in pressure.iter().enumerate() {
        assert_eq!(*p, if m == centre { -200 } else { 0 });
    }
    // all neighbours are air and hold zero: further sweeps change nothing
    assert_eq!(solve_pressure(&d, &markers, &divergence, 8), pressure);
    let corrected = correct_velocity(&d, &markers, &velocity, &pressure);
    assert_eq!(corrected[d.sample_number(0, 2, 1, 1)], 400);
    assert_eq!(corrected[d.sample_number(0, 1, 1, 1)], 200);
    assert_eq!(corrected[d.sample_number(1, 1, 1, 1)], -400);
    assert_eq!(corrected[d.sample_number(1, 1, 2, 1)], -200);
    let leftover = compute_divergence(&d, &markers, &corrected);
    assert_eq!(max_magnitude(&leftover), 0);
}

#[test]
fn solid_neighbours_are_left_out_of_the_stencil() {
    let d = dims(1, 1, 2);
    let particles = vec![at_rest(0.5, 0.5, 0.5)];
    let markers = classify(&d, &particles);
    let mut velocity = vec![0i64; d.sample_count()];
    velocity[d.sample_number(2, 0, 0, 1)] = 300;
    // every face but the one towards the air cell is a wall
    velocity[d.sample_number(0, 1, 0, 0)] = 77;
    let divergence = compute_divergence(&d, &markers, &velocity);
    assert_eq!(divergence, vec![300, 0]);
    let pressure = solve_pressure(&d, &markers, &divergence, 3);
    assert_eq!(pressure, vec![-300, 0]);
    let corrected = correct_velocity(&d, &markers, &velocity, &pressure);
    assert_eq!(corrected[d.sample_number(2, 0, 0, 1)], 0);
    assert_eq!(corrected[d.sample_number(0, 1, 0, 0)], 0);
    // a lone cell between walls has no stencil at all
    let lone = dims(1, 1, 1);
    let lone_markers = classify(&lone, &particles);
    let still = vec![0i64; lone.sample_count()];
    let lone_divergence = compute_divergence(&lone, &lone_markers, &still);
    assert_eq!(solve_pressure(&lone, &lone_markers, &lone_divergence, 5), vec![0]);
}

#[test]
fn advection_moves_by_velocity_times_timestep() {
    let d = dims(8, 8, 8);
    let p = Particle { position: vec3(4.0, 4.0, 4.0), velocity: vec3(6.0, -3.0, 0.0) };
    let moved = advect_particle(&d, 500_000_000, &p);
    assert_eq!(moved.position, vec3(7.0, 2.5, 4.0));
    assert_eq!(moved.velocity, p.velocity);
}

#[test]
fn advection_stops_a_particle_at_the_wall() {
    let d = dims(8, 8, 8);
    let p = Particle { position: vec3(7.5, 0.25, 4.0), velocity: vec3(6.0, -3.0, 1.0) };
    let moved = advect_particle(&d, 500_000_000, &p);
    assert_eq!(moved.position, Vec3 { x: 8 * ONE - 1, y: 1, z: fx(4.5) });
    assert_eq!(moved.velocity, Vec3 { x: 0, y: 0, z: fx(1.0) });
    // the fastest particle over the longest timestep still ends up inside
    let wild = Particle { position: vec3(1.0, 1.0, 1.0), velocity: Vec3 { x: VEL_MAX, y: -VEL_MAX, z: 0 } };
    let held = advect_particle(&d, u64::MAX, &wild);
    assert_eq!(held.position, Vec3 { x: 8 * ONE - 1, y: 1, z: fx(1.0) });
    assert_eq!(held.velocity, Vec3 { x: 0, y: 0, z: 0 });
}

#[test]
fn solver_refuses_what_it_cannot_run_with() {
    assert!(matches!(
        HybridFluid::new(GridDims { nx: 0, ny: 8, nz: 8 }, 10, DT, 4),
        Err(SimError::InvalidConfiguration)
    ));
    assert!(matches!(
        HybridFluid::new(GridDims { nx: 8, ny: 8, nz: 8 }, 10, 0, 4),
        Err(SimError::InvalidConfiguration)
    ));
    assert!(matches!(
        HybridFluid::new(GridDims { nx: 8, ny: 8, nz: 8 }, MAX_PARTICLES + 1, DT, 4),
        Err(SimError::InvalidConfiguration)
    ));
    let fluid = HybridFluid::new(GridDims { nx: 8, ny: 4, nz: 2 }, 10, DT, 4).unwrap();
    assert_eq!(fluid.num_particles(), 0);
    assert_eq!(fluid.max_num_particles(), 10);
    assert_eq!(fluid.grid_dimension(), GridDims { nx: 8, ny: 4, nz: 2 });
    assert_eq!(fluid.fixed_dt_ns(), DT);
    assert_eq!(fluid.pressure_sweeps(), 4);
    assert_eq!(fluid.markers().len(), 64);
    assert!(fluid.markers().iter().all(|m| *m == Marker::Air));
    assert_eq!(fluid.velocity().len(), 3 * 9 * 5 * 3);
    assert_eq!(fluid.pressure().len(), 64);
    assert_eq!(fluid.divergence().len(), 64);
    assert_eq!(fluid.residual(), 0);
    assert_eq!(fluid.gravity_grid(), Vec3 { x: 0, y: 0, z: 0 });
}

#[test]
fn solver_fill_errors_leave_the_particles_alone() {
    let mut fluid = HybridFluid::new(GridDims { nx: 4, ny: 4, nz: 4 }, 20, DT, 4).unwrap();
    assert_eq!(fluid.add_fluid_cube(corner(0, 0, 0), corner(1, 2, 1)), Ok(()));
    assert_eq!(fluid.num_particles(), 16);
    let before: Vec<Particle> = fluid.particles().clone();
    assert_eq!(fluid.add_fluid_cube(corner(0, 0, 0), corner(1, 1, 1)), Err(SimError::CapacityExceeded));
    assert_eq!(fluid.add_fluid_cube(corner(0, 0, 0), corner(5, 1, 1)), Err(SimError::InvalidConfiguration));
    assert_eq!(fluid.add_particle(at_rest(4.0, 1.0, 1.0)), Err(SimError::InvalidConfiguration));
    assert_eq!(fluid.add_particle(at_rest(1.0, 0.0, 1.0)), Err(SimError::InvalidConfiguration));
    let too_fast = Particle { position: vec3(1.0, 1.0, 1.0), velocity: Vec3 { x: VEL_MAX + 1, y: 0, z: 0 } };
    assert_eq!(fluid.add_particle(too_fast), Err(SimError::InvalidConfiguration));
    assert_eq!(fluid.particles(), &before);
    for _ in 0..4 {
        assert_eq!(fluid.add_particle(at_rest(1.0, 1.0, 1.0)), Ok(()));
    }
    assert_eq!(fluid.add_particle(at_rest(1.0, 1.0, 1.0)), Err(SimError::CapacityExceeded));
    assert_eq!(fluid.num_particles(), 20);
}

#[test]
fn single_particle_falls_until_the_floor_stops_it() {
    let mut fluid = HybridFluid::new(GridDims { nx: 8, ny: 8, nz: 8 }, 1, DT, 16).unwrap();
    fluid.add_particle(at_rest(4.5, 4.5, 4.5)).unwrap();
    fluid.set_gravity_grid(vec3(0.0, -9.8, 0.0));
    let mut free_fall_steps = 0;
    for _ in 0..60 {
        let before = fluid.particles()[0];
        fluid.step();
        let p = fluid.particles()[0];
        assert_eq!(p.position.x, fx(4.5));
        assert_eq!(p.position.z, fx(4.5));
        assert_eq!(p.velocity.x, 0);
        assert_eq!(p.velocity.z, 0);
        assert!(p.position.y >= 1);
        if before.position.y == 1 {
            // on the floor there is no further descent
            assert_eq!(p.position.y, 1);
        } else {
            assert!(p.position.y < before.position.y);
        }
        if before.position.y >= ONE {
            // above the bottom cell nothing obstructs the fall
            assert_eq!(p.velocity.y, before.velocity.y - 10704);
            free_fall_steps += 1;
        } else {
            // the closed floor face holds the fluid of the bottom cell back
            assert!(p.velocity.y > before.velocity.y - 10704);
        }
        assert_eq!(fluid.num_particles(), 1);
        assert_eq!(fluid.markers().iter().filter(|m| **m == Marker::Fluid).count(), 1);
    }
    assert!(free_fall_steps > 40);
    let p = fluid.particles()[0];
    assert!(p.position.y < ONE);
    assert!(p.velocity.y > -10704 * 60);
}

#[test]
fn unobstructed_particle_reaches_gravity_times_one_second() {
    let mut fluid = HybridFluid::new(GridDims { nx: 8, ny: 16, nz: 8 }, 1, DT, 16).unwrap();
    fluid.add_particle(at_rest(4.5, 12.5, 4.5)).unwrap();
    fluid.set_gravity_grid(vec3(0.0, -9.8, 0.0));
    for k in 1..=60i64 {
        let before = fluid.particles()[0];
        fluid.step();
        let p = fluid.particles()[0];
        assert_eq!(p.velocity.y, -10704 * k);
        assert_eq!(p.position.y, before.position.y + p.velocity.y * DT as i64 / 1_000_000_000);
        assert_eq!(fluid.residual(), 0);
        assert!(fluid.has_converged(0));
    }
    let p = fluid.particles()[0];
    assert!((as_float(p.velocity.y) + 9.8).abs() < 0.001);
    assert!((as_float(p.position.y) - (12.5 - 4.98)).abs() < 0.01);
}

#[test]
fn particle_count_is_invariant_and_particles_stay_inside() {
    let cfg = config(6, 6, 6, 1000, vec![FluidCube { min: corner(1, 2, 1), max: corner(4, 6, 3) }]);
    let mut scene = Scene::new(cfg).unwrap();
    assert_eq!(scene.fluid().num_particles(), 3 * 4 * 2 * 8);
    for _ in 0..40 {
        scene.step();
        assert_eq!(scene.fluid().num_particles(), 192);
        for p in scene.fluid().particles() {
            assert!(1 <= p.position.x && p.position.x <= 6 * ONE - 1);
            assert!(1 <= p.position.y && p.position.y <= 6 * ONE - 1);
            assert!(1 <= p.position.z && p.position.z <= 6 * ONE - 1);
            assert!(p.velocity.x.abs() <= VEL_MAX);
            assert!(p.velocity.y.abs() <= VEL_MAX);
            assert!(p.velocity.z.abs() <= VEL_MAX);
        }
    }
    // the block has fallen
    let lowest = scene.fluid().particles().iter().map(|p| p.position.y).min().unwrap();
    assert!(lowest < fx(1.0));
}

#[test]
fn fluid_at_rest_without_gravity_stays_at_rest() {
    let mut cfg = config(4, 4, 4, 1000, vec![FluidCube { min: corner(0, 0, 0), max: corner(4, 2, 4) }]);
    cfg.gravity = vec3(0.0, 0.0, 0.0);
    let mut scene = Scene::new(cfg).unwrap();
    let before: Vec<Particle> = scene.fluid().particles().clone();
    for _ in 0..5 {
        scene.step();
    }
    assert_eq!(scene.fluid().particles(), &before);
    assert_eq!(scene.fluid().residual(), 0);
    assert!(scene.fluid().divergence().iter().all(|d| *d == 0));
    assert!(scene.fluid().pressure().iter().all(|p| *p == 0));
}

#[test]
fn residual_is_the_worst_divergence_left_after_projection() {
    let cfg = config(4, 4, 4, 1000, vec![FluidCube { min: corner(0, 0, 0), max: corner(4, 2, 4) }]);
    let mut scene = Scene::new(cfg).unwrap();
    scene.step();
    let fluid = scene.fluid();
    let d = fluid.grid_dimension();
    let leftover = compute_divergence(&d, fluid.markers(), fluid.velocity());
    assert_eq!(fluid.residual(), max_magnitude(&leftover));
    assert!(fluid.has_converged(fluid.residual()));
    assert!(fluid.residual() == 0 || !fluid.has_converged(fluid.residual() - 1));
    // the sweeps have brought the divergence down
    let start = max_magnitude(fluid.divergence());
    assert!(start > 0);
    assert!(fluid.residual() < start);
}

#[test]
fn gravity_is_taken_over_in_grid_units() {
    assert_eq!(gravity_to_grid(vec3(0.0, -9.81, 0.0), ONE / 128), Vec3 { x: 0, y: fx(-9.81) * 128, z: 0 });
    assert_eq!(gravity_to_grid(vec3(1.0, -3.0, 0.5), 2 * ONE), vec3(0.5, -1.5, 0.25));
    assert_eq!(gravity_to_grid(Vec3 { x: i64::MAX, y: i64::MIN, z: 7 }, 1), Vec3 { x: VEL_MAX, y: -VEL_MAX, z: 7 * ONE });
}

#[test]
fn scene_load_checks_the_whole_description_first() {
    let ok = config(8, 8, 8, 64, vec![FluidCube { min: corner(0, 0, 0), max: corner(2, 2, 2) }]);
    let fluid = build_fluid(&ok).unwrap();
    assert_eq!(fluid.num_particles(), 64);
    assert_eq!(fluid.gravity_grid(), vec3(0.0, -9.8, 0.0));

    let mut bad = config(8, 8, 8, 64, vec![]);
    bad.fluid.grid_dimension.ny = 0;
    assert!(matches!(build_fluid(&bad), Err(SimError::InvalidConfiguration)));
    let mut bad = config(8, 8, 8, 64, vec![]);
    bad.fixed_dt_ns = 0;
    assert!(matches!(build_fluid(&bad), Err(SimError::InvalidConfiguration)));
    let mut bad = config(8, 8, 8, 64, vec![]);
    bad.fluid.grid_to_world_scale = 0;
    assert!(matches!(build_fluid(&bad), Err(SimError::InvalidConfiguration)));
    let mut bad = config(8, 8, 8, 64, vec![]);
    bad.fluid.max_num_particles = MAX_PARTICLES + 1;
    assert!(matches!(build_fluid(&bad), Err(SimError::InvalidConfiguration)));
    // an overfull first fill does not hide a second one outside the grid
    let bad = config(
        8,
        8,
        8,
        8,
        vec![
            FluidCube { min: corner(0, 0, 0), max: corner(2, 2, 2) },
            FluidCube { min: corner(0, 0, 0), max: corner(9, 1, 1) },
        ],
    );
    assert!(matches!(build_fluid(&bad), Err(SimError::InvalidConfiguration)));
    let full = config(
        8,
        8,
        8,
        15,
        vec![
            FluidCube { min: corner(0, 0, 0), max: corner(1, 1, 1) },
            FluidCube { min: corner(1, 0, 0), max: corner(2, 1, 1) },
        ],
    );
    assert!(matches!(Scene::new(full), Err(SimError::CapacityExceeded)));
}

#[test]
fn scene_reset_brings_the_first_state_back() {
    let cfg = config(6, 6, 6, 100, vec![FluidCube { min: corner(2, 3, 2), max: corner(3, 4, 3) }]);
    let mut scene = Scene::new(cfg).unwrap();
    let first: Vec<Particle> = scene.fluid().particles().clone();
    for _ in 0..10 {
        scene.step();
    }
    assert_ne!(scene.fluid().particles(), &first);
    scene.set_gravity(vec3(0.0, -1.0, 0.0));
    assert_eq!(scene.config().gravity, vec3(0.0, -1.0, 0.0));
    assert_eq!(scene.fluid().gravity_grid(), vec3(0.0, -1.0, 0.0));
    scene.reset();
    assert_eq!(scene.fluid().particles(), &first);
    assert_eq!(scene.fluid().gravity_grid(), vec3(0.0, -1.0, 0.0));
    assert!(scene.fluid().markers().iter().all(|m| *m == Marker::Air));
}

#[test]
fn simulation_runs_the_steps_the_scheduler_asks_for() {
    let cfg = config(6, 6, 6, 100, vec![FluidCube { min: corner(2, 3, 2), max: corner(3, 4, 3) }]);
    let mut sim = Simulation::new(cfg, 4).unwrap();
    assert_eq!(sim.status(), SchedulerStatus::Paused);
    let first: Vec<Particle> = sim.fluid().particles().clone();
    assert_eq!(sim.tick(1_000_000_000), 0);
    assert_eq!(sim.fluid().particles(), &first);

    let cfg = config(6, 6, 6, 100, vec![FluidCube { min: corner(2, 3, 2), max: corner(3, 4, 3) }]);
    let mut by_hand = Scene::new(cfg).unwrap();
    sim.resume(ResumeMode::Realtime);
    assert_eq!(sim.tick(10_000_000_000), 4);
    for _ in 0..4 {
        by_hand.step();
    }
    assert_eq!(sim.fluid().particles(), by_hand.fluid().particles());
    assert_eq!(sim.fluid().velocity(), by_hand.fluid().velocity());
    assert_eq!(sim.clock().steps_total, 4);
    assert_eq!(sim.clock().steps_this_tick, 4);

    assert_eq!(sim.fast_forward(100_000_000), 6);
    for _ in 0..6 {
        by_hand.step();
    }
    assert_eq!(sim.fluid().particles(), by_hand.fluid().particles());
    assert_eq!(sim.clock().steps_total, 10);
    sim.on_frame_submitted();
    assert_eq!(sim.clock().frames_rendered, 1);

    sim.pause();
    let held: Vec<Particle> = sim.fluid().particles().clone();
    assert_eq!(sim.tick(1_000_000_000), 0);
    assert_eq!(sim.fluid().particles(), &held);

    sim.reset();
    assert_eq!(sim.fluid().particles(), &first);
    assert_eq!(sim.clock().steps_total, 0);
    assert_eq!(sim.status(), SchedulerStatus::Paused);
}

#[test]
fn recording_resets_and_steps_the_same_however_ticks_arrive() {
    let cube = FluidCube { min: corner(2, 3, 2), max: corner(3, 4, 3) };
    let mut even = Simulation::new(config(6, 6, 6, 100, vec![cube]), 1).unwrap();
    let mut ragged = Simulation::new(config(6, 6, 6, 100, vec![cube]), 1).unwrap();
    ragged.resume(ResumeMode::SimulateAndRender);
    ragged.tick(100_000_000);
    assert_eq!(even.start_recording(30), Ok(()));
    assert_eq!(ragged.start_recording(30), Ok(()));
    assert_eq!(ragged.clock().steps_total, 0);
    for gap in [0u64, 5_000_000_000, 17, 33_333_333, 1] {
        assert_eq!(even.tick(33_333_333), 2);
        assert_eq!(ragged.tick(gap), 2);
    }
    assert_eq!(even.clock().steps_total, 10);
    assert_eq!(ragged.clock().steps_total, 10);
    assert_eq!(even.fluid().particles(), ragged.fluid().particles());
    assert_eq!(ragged.start_recording(0), Err(SimError::InvalidConfiguration));
    assert_eq!(ragged.clock().steps_total, 10);
    ragged.stop_recording();
    assert_eq!(ragged.status(), SchedulerStatus::Paused);
}

#[test]
fn failed_scene_load_keeps_the_running_scene() {
    let cube = FluidCube { min: corner(2, 3, 2), max: corner(3, 4, 3) };
    let mut sim = Simulation::new(config(6, 6, 6, 100, vec![cube]), 4).unwrap();
    sim.resume(ResumeMode::Realtime);
    sim.tick(40_000_000);
    let particles: Vec<Particle> = sim.fluid().particles().clone();
    let clock = sim.clock();
    let mut bad = config(6, 6, 6, 100, vec![cube]);
    bad.fluid.grid_dimension.nx = 0;
    assert_eq!(sim.load_scene(bad), Err(SimError::InvalidConfiguration));
    assert_eq!(sim.load_scene(config(6, 6, 6, 7, vec![cube])), Err(SimError::CapacityExceeded));
    assert_eq!(sim.fluid().particles(), &particles);
    assert_eq!(sim.clock(), clock);
    assert_eq!(sim.scene().config().fluid.grid_dimension, GridDims { nx: 6, ny: 6, nz: 6 });

    let mut next = config(4, 5, 6, 50, vec![]);
    next.fixed_dt_ns = 1_000_000;
    assert_eq!(sim.load_scene(next), Ok(()));
    assert_eq!(sim.fluid().grid_dimension(), GridDims { nx: 4, ny: 5, nz: 6 });
    assert_eq!(sim.fluid().num_particles(), 0);
    assert_eq!(sim.scheduler().fixed_dt_ns(), 1_000_000);
    assert_eq!(sim.clock().steps_total, 0);
    assert_eq!(sim.status(), SchedulerStatus::Realtime);
    sim.set_gravity(vec3(0.0, 2.0, 0.0));
    assert_eq!(sim.fluid().gravity_grid(), vec3(0.0, 2.0, 0.0));
}

#[test]
fn invalid_scene_gives_no_simulation() {
    let mut bad = config(6, 6, 6, 100, vec![]);
    bad.fixed_dt_ns = 0;
    assert!(matches!(Simulation::new(bad, 4), Err(SimError::InvalidConfiguration)));
}

#[test]
fn volume_fields_are_drawn_once_per_cell() {
    let d = dims(128, 64, 64);
    assert_eq!(num_grid_cells(&d), 524288);
    assert_eq!(VolumeVisualizationMode::Hidden.draw_range(&d), None);
    assert_eq!(
        VolumeVisualizationMode::Velocity.draw_range(&d),
        Some(DrawRange { vertices: 2, instances: 524288 * 3 })
    );
    for mode in [
        VolumeVisualizationMode::DivergenceUncorrected,
        VolumeVisualizationMode::PseudoPressure,
        VolumeVisualizationMode::Marker,
    ] {
        assert_eq!(mode.draw_range(&d), Some(DrawRange { vertices: 6, instances: 524288 }));
    }
    let volume = VolumeRenderer::new();
    assert_eq!(volume.draw(&d, VolumeVisualizationMode::Hidden), None);
    assert_eq!(
        volume.draw(&d, VolumeVisualizationMode::Velocity),
        Some(DrawRange { vertices: 2, instances: 524288 * 3 })
    );
    assert_eq!(
        volume.draw(&d, VolumeVisualizationMode::PseudoPressure),
        Some(DrawRange { vertices: 6, instances: 524288 })
    );
    assert_ne!(FluidRenderingMode::Particles, FluidRenderingMode::ScreenSpaceFluid);
    assert_ne!(FluidRenderingMode::Hidden, FluidRenderingMode::Particles);
}

#[test]
fn gather_blends_the_change_on_the_grid_with_the_grid_velocity() {
    let d = dims(2, 2, 2);
    let n = d.sample_count();
    let before = vec![0i64; n];
    let mut after = vec![0i64; n];
    for j in 0..=2 {
        for i in 0..2 {
            for k in 0..2 {
                after[d.sample_number(1, i, j, k)] = ONE;
            }
        }
    }
    let rising = Particle { position: vec3(0.7, 1.2, 1.1), velocity: Vec3 { x: 0, y: 1000, z: 0 } };
    let sinking = Particle { position: vec3(1.5, 0.4, 0.3), velocity: Vec3 { x: 0, y: -1000, z: 0 } };
    let out = gather(&d, &before, &after, &vec![rising, sinking]);
    assert_eq!(out.len(), 2);
    assert_eq!(out[0].position, rising.position);
    assert_eq!(out[1].position, sinking.position);
    // 0.95 of (own velocity + change on the grid) and 0.05 of the grid velocity
    assert_eq!(out[0].velocity, Vec3 { x: 0, y: 66485, z: 0 });
    assert_eq!(out[1].velocity, Vec3 { x: 0, y: 64586, z: 0 });
    // an unchanged grid leaves only the pull towards the grid velocity
    let same = gather(&d, &after, &after, &vec![rising]);
    assert_eq!(same[0].velocity.y, (62259 * 1000 + 3277 * 65536) / 65536);
}

#[test]
fn scatter_spreads_each_particle_over_the_eight_samples_around_it() {
    let d = dims(3, 3, 3);
    let particles = vec![
        Particle { position: vec3(1.3, 1.6, 0.2), velocity: vec3(1.0, -2.0, 0.5) },
        Particle { position: vec3(2.9, 0.1, 2.75), velocity: vec3(-0.25, 4.0, 0.0) },
        Particle { position: vec3(1.0, 2.0, 1.5), velocity: vec3(3.0, 3.0, 3.0) },
    ];
    let n = d.sample_count();
    let mut momenta = vec![0i128; n];
    let mut weights = vec![0i128; n];
    let (velocity, marked) = scatter(&d, &particles, &mut momenta, &mut weights);
    for s in 0..n {
        let (axis, i, j, k) = d.sample_coords(s);
        let (m, w) = sample_sums(&particles, axis, i, j, k);
        assert_eq!(momenta[s], m);
        assert_eq!(weights[s], w);
        let carries = d.has_face(axis, i, j, k) && w > 0;
        assert_eq!(marked[s], carries);
        assert_eq!(velocity[s], if carries { (m / w) as i64 } else { 0 });
    }
    // each particle puts a weight of one on every component
    let one_cubed = (ONE as i128).pow(3);
    let per_axis: i128 = weights[..n / 3].iter().sum();
    assert!(per_axis <= 3 * one_cubed);
    assert!(per_axis > 2 * one_cubed);
}

#[test]
fn renderer_starts_with_the_fluid_surface_and_the_outline() {
    let r = SceneRenderer::new();
    assert_eq!(r.fluid_rendering_mode, FluidRenderingMode::ScreenSpaceFluid);
    assert_eq!(r.volume_visualization, VolumeVisualizationMode::Hidden);
    assert_eq!(r.particle_radius_factor, fx(0.7));
    assert!(r.enable_box_lines);
    assert_eq!(r.velocity_visualization_scale, fx(0.008));
    let d = dims(4, 2, 2);
    assert_eq!(
        r.draw(&d),
        DrawPlan { particles: false, volume: None, box_lines: true, screen_space_fluid: true }
    );
    let mut r = r;
    r.fluid_rendering_mode = FluidRenderingMode::Particles;
    r.volume_visualization = VolumeVisualizationMode::Velocity;
    r.enable_box_lines = false;
    assert_eq!(
        r.draw(&d),
        DrawPlan {
            particles: true,
            volume: Some(DrawRange { vertices: 2, instances: 48 }),
            box_lines: false,
            screen_space_fluid: false,
        }
    );
    r.fluid_rendering_mode = FluidRenderingMode::Hidden;
    r.volume_visualization = VolumeVisualizationMode::Marker;
    assert_eq!(
        r.draw(&d),
        DrawPlan {
            particles: false,
            volume: Some(DrawRange { vertices: 6, instances: 16 }),
            box_lines: false,
            screen_space_fluid: false,
        }
    );
}

#[test]
fn renderer_outlines_the_grid_in_world_space() {
    let cfg = config(128, 64, 64, 10, vec![]);
    let mut fluid = cfg.fluid;
    fluid.world_position = vec3(1.0, -2.0, 0.5);
    fluid.grid_to_world_scale = ONE / 128;
    let lines = SceneRenderer::new().on_new_scene(&fluid);
    assert_eq!(lines.len(), 24);
    let (min, max) = (vec3(1.0, -2.0, 0.5), vec3(2.0, -1.5, 1.0));
    assert_eq!(lines[0], Vec3 { x: min.x, y: min.y, z: max.z });
    assert_eq!(lines[1], Vec3 { x: max.x, y: min.y, z: max.z });
    assert_eq!(lines[3], max);
    assert_eq!(lines[8], min);
    assert_eq!(lines[15], min);
    assert_eq!(lines[16], min);
    assert_eq!(lines[17], Vec3 { x: min.x, y: min.y, z: max.z });
    assert_eq!(lines[22], Vec3 { x: min.x, y: max.y, z: min.z });
    assert_eq!(lines[23], Vec3 { x: min.x, y: max.y, z: max.z });
    // every edge runs along one axis
    for edge in lines.chunks(2) {
        let same = [edge[0].x == edge[1].x, edge[0].y == edge[1].y, edge[0].z == edge[1].z];
        assert_eq!(same.iter().filter(|s| **s).count(), 2);
    }
}

#[test]
fn renderer_settings_carry_the_particle_radius() {
    let cfg = config(128, 64, 64, 10, vec![]);
    let mut fluid = cfg.fluid;
    fluid.grid_to_world_scale = ONE / 128;
    let r = SceneRenderer::new();
    assert_eq!(
        r.fill_global_uniform_buffer(&fluid),
        GlobalRenderSettingsUniformBufferContent {
            fluid_origin: vec3(0.0, 0.0, 0.0),
            fluid_grid_to_world_scale: 512,
            velocity_visualization_scale: 524,
            fluid_particle_radius: 179,
        }
    );
    fluid.grid_to_world_scale = ONE;
    assert_eq!(r.fill_global_uniform_buffer(&fluid).fluid_particle_radius, 22937);
}

#[test]
fn events_of_the_user_interface_are_carried_out() {
    let cube = FluidCube { min: corner(2, 3, 2), max: corner(3, 4, 3) };
    let mut sim = Simulation::new(config(6, 6, 6, 100, vec![cube]), 4).unwrap();
    let first: Vec<Particle> = sim.fluid().particles().clone();
    assert_eq!(sim.handle_event(ApplicationEvent::FastForwardSimulation(50_000_000)), Ok(3));
    assert_eq!(sim.clock().steps_total, 3);
    assert_ne!(sim.fluid().particles(), &first);
    assert_eq!(sim.handle_event(ApplicationEvent::ResetScene), Ok(0));
    assert_eq!(sim.fluid().particles(), &first);
    assert_eq!(sim.clock().steps_total, 0);
    assert_eq!(
        sim.handle_event(ApplicationEvent::ResetAndStartRecording { recording_fps: 0 }),
        Err(SimError::InvalidConfiguration)
    );
    assert_eq!(sim.status(), SchedulerStatus::Paused);
    assert_eq!(sim.handle_event(ApplicationEvent::ResetAndStartRecording { recording_fps: 60 }), Ok(0));
    assert_eq!(sim.status(), SchedulerStatus::Record { target_fps: 60 });
    assert_eq!(sim.tick(0), 1);
    assert_eq!(
        sim.handle_event(ApplicationEvent::LoadScene(config(6, 6, 6, 1, vec![cube]))),
        Err(SimError::CapacityExceeded)
    );
    assert_eq!(sim.fluid().num_particles(), 8);
    assert_eq!(sim.clock().steps_total, 1);
    assert_eq!(sim.handle_event(ApplicationEvent::LoadScene(config(3, 3, 3, 1, vec![]))), Ok(0));
    assert_eq!(sim.fluid().grid_dimension(), GridDims { nx: 3, ny: 3, nz: 3 });
    assert_eq!(sim.status(), SchedulerStatus::Record { target_fps: 60 });
    assert_eq!(sim.clock().steps_total, 0);
}

#[test]
fn space_bar_pauses_and_resumes() {
    let mut sim = Simulation::new(config(4, 4, 4, 10, vec![]), 4).unwrap();
    sim.pause_or_resume();
    assert_eq!(sim.status(), SchedulerStatus::Realtime);
    sim.pause_or_resume();
    assert_eq!(sim.status(), SchedulerStatus::Paused);
    sim.start_recording(30).unwrap();
    sim.pause_or_resume();
    assert_eq!(sim.status(), SchedulerStatus::Paused);
}
