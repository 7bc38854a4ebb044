//! What a renderer is asked to show of a scene. The choices and the sizes
//! are the library's; the drawing is not.

use vstd::prelude::*;
use crate::fixed::{clamp, clamp_to, div_toward_zero, trunc_div, Vec3, ONE};
use crate::grid::GridDims;
use crate::scene::FluidConfig;

verus! {

/// How the fluid itself is drawn.
#[derive(Clone, Copy, Debug, PartialEq, Eq, Structural)]
pub enum FluidRenderingMode {
    Hidden,
    ScreenSpaceFluid,
    Particles,
}

/// Which grid field is drawn over the volume.
#[derive(Clone, Copy, Debug, PartialEq, Eq, Structural)]
pub enum VolumeVisualizationMode {
    Hidden,
    Velocity,
    DivergenceUncorrected,
    PseudoPressure,
    Marker,
}

/// The size of one instanced draw.
#[derive(Clone, Copy, Debug, PartialEq, Eq, Structural)]
pub struct DrawRange {
    pub vertices: u32,
    pub instances: u32,
}

/// What one frame draws, pass by pass.
#[derive(Clone, Copy, Debug, PartialEq, Eq, Structural)]
pub struct DrawPlan {
    /// Opaque pass: the fluid as particles.
    pub particles: bool,
    /// Opaque pass: a grid field over the volume.
    pub volume: Option<DrawRange>,
    /// Opaque pass: the outline of the grid.
    pub box_lines: bool,
    /// Transparent pass: the fluid as a surface in screen space.
    pub screen_space_fluid: bool,
}

/// The settings that every shader of a frame reads, in fixed point.
#[derive(Clone, Copy, Debug, PartialEq, Eq, Structural)]
pub struct GlobalRenderSettingsUniformBufferContent {
    pub fluid_origin: Vec3,
    pub fluid_grid_to_world_scale: i64,
    pub velocity_visualization_scale: i64,
    pub fluid_particle_radius: i64,
}

/// What renders the scene: its settings, which outlive any one scene.
#[derive(Clone, Copy, Debug, PartialEq, Eq, Structural)]
pub struct SceneRenderer {
    pub fluid_rendering_mode: FluidRenderingMode,
    pub volume_visualization: VolumeVisualizationMode,
    /// Radius of a drawn particle over the radius its share of a cell
    /// would give it, in fixed point.
    pub particle_radius_factor: i64,
    pub enable_box_lines: bool,
    /// Drawn length of a velocity of one, in fixed point.
    pub velocity_visualization_scale: i64,
}

/// A sum of world coordinates, held to what a coordinate can be.
pub open spec fn world_sum(a: int, b: int) -> int {
    clamp(a + b, i64::MIN as int, i64::MAX as int)
}

/// The far corner of the grid in the world.
pub open spec fn world_max(fluid: FluidConfig) -> Vec3 {
    Vec3 {
        x: world_sum(
            fluid.world_position.x as int,
            fluid.grid_dimension.nx * fluid.grid_to_world_scale,
        ) as i64,
        y: world_sum(
            fluid.world_position.y as int,
            fluid.grid_dimension.ny * fluid.grid_to_world_scale,
        ) as i64,
        z: world_sum(
            fluid.world_position.z as int,
            fluid.grid_dimension.nz * fluid.grid_to_world_scale,
        ) as i64,
    }
}

/// The twelve edges of the box between two corners, each as its two ends:
/// the face at the far z, the face at the near z, and the four edges
/// between them.
pub open spec fn box_lines(min: Vec3, max: Vec3) -> Seq<Vec3> {
    seq![
        Vec3 { x: min.x, y: min.y, z: max.z },
        Vec3 { x: max.x, y: min.y, z: max.z },
        Vec3 { x: max.x, y: min.y, z: max.z },
        Vec3 { x: max.x, y: max.y, z: max.z },
        Vec3 { x: max.x, y: max.y, z: max.z },
        Vec3 { x: min.x, y: max.y, z: max.z },
        Vec3 { x: min.x, y: max.y, z: max.z },
        Vec3 { x: min.x, y: min.y, z: max.z },
        Vec3 { x: min.x, y: min.y, z: min.z },
        Vec3 { x: max.x, y: min.y, z: min.z },
        Vec3 { x: max.x, y: min.y, z: min.z },
        Vec3 { x: max.x, y: max.y, z: min.z },
        Vec3 { x: max.x, y: max.y, z: min.z },
        Vec3 { x: min.x, y: max.y, z: min.z },
        Vec3 { x: min.x, y: max.y, z: min.z },
        Vec3 { x: min.x, y: min.y, z: min.z },
        Vec3 { x: min.x, y: min.y, z: min.z },
        Vec3 { x: min.x, y: min.y, z: max.z },
        Vec3 { x: max.x, y: min.y, z: min.z },
        Vec3 { x: max.x, y: min.y, z: max.z },
        Vec3 { x: max.x, y: max.y, z: min.z },
        Vec3 { x: max.x, y: max.y, z: max.z },
        Vec3 { x: min.x, y: max.y, z: min.z },
        Vec3 { x: min.x, y: max.y, z: max.z },
    ]
}

/// Radius of a drawn particle: half a cell, for two particles along each
/// axis of a cell, times the factor.
pub open spec fn particle_radius(scale: int, factor: int) -> int {
    clamp(trunc_div(scale * factor, 2 * ONE), i64::MIN as int, i64::MAX as int)
}

fn world_far(origin: i64, cells: u32, scale: i64) -> (r: i64)
    ensures
        r == world_sum(origin as int, cells * scale),
{
    assert(-170141183460469231722463931679029329920 <= (cells as int) * (scale as int)
        <= 170141183460469231722463931679029329920) by (nonlinear_arith)
        requires
            0 <= cells <= 4294967295,
            -9223372036854775808 <= scale <= 9223372036854775807,
    ;
    clamp_to(origin as i128 + (cells as i128) * (scale as i128), i64::MIN, i64::MAX)
}

impl VolumeVisualizationMode {
    /// The draw that shows the field: a line of two vertices for each of
    /// the three velocity components of every cell, or one quad of six
    /// vertices for every cell; none where nothing is shown.
    pub open spec fn spec_draw_range(self, dims: GridDims) -> Option<DrawRange> {
        match self {
            VolumeVisualizationMode::Hidden => None,
            VolumeVisualizationMode::Velocity => Some(
                DrawRange { vertices: 2, instances: (dims.num_cells() * 3) as u32 },
            ),
            _ => Some(DrawRange { vertices: 6, instances: dims.num_cells() as u32 }),
        }
    }

    pub fn draw_range(self, dims: &GridDims) -> (r: Option<DrawRange>)
        requires
            dims.valid(),
        ensures
            r == self.spec_draw_range(*dims),
            r is Some ==> r->Some_0.instances == dims.num_cells() * (if self
                == VolumeVisualizationMode::Velocity {
                3int
            } else {
                1int
            }),
    {
        proof {
            dims.lemma_sizes();
        }
        let cells: u32 = num_grid_cells(dims);
        match self {
            VolumeVisualizationMode::Hidden => None,
            VolumeVisualizationMode::Velocity => Some(DrawRange { vertices: 2, instances: cells * 3 }),
            _ => Some(DrawRange { vertices: 6, instances: cells }),
        }
    }
}

/// Number of cells of the grid.
pub fn num_grid_cells(dims: &GridDims) -> (r: u32)
    requires
        dims.valid(),
    ensures
        r == dims.num_cells(),
{
    proof {
        dims.lemma_sizes();
    }
    dims.cell_count() as u32
}

/// Draws grid fields over the volume.
#[derive(Clone, Copy, Debug, PartialEq, Eq, Structural)]
pub struct VolumeRenderer {
    /// Vertices of the line that shows one velocity component.
    pub line_vertices: u32,
    /// Vertices of the quad that shows one cell.
    pub quad_vertices: u32,
}

impl VolumeRenderer {
    pub fn new() -> (r: VolumeRenderer)
        ensures
            r == (VolumeRenderer { line_vertices: 2, quad_vertices: 6 }),
    {
        VolumeRenderer { line_vertices: 2, quad_vertices: 6 }
    }

    /// The draw that shows the field asked for: a line for each of the
    /// three velocity components of every cell, or a quad for every cell;
    /// none where nothing is shown.
    pub fn draw(&self, dims: &GridDims, mode: VolumeVisualizationMode) -> (r: Option<DrawRange>)
        requires
            dims.valid(),
        ensures
            r == match mode {
                VolumeVisualizationMode::Hidden => None,
                VolumeVisualizationMode::Velocity => Some(
                    DrawRange {
                        vertices: self.line_vertices,
                        instances: (dims.num_cells() * 3) as u32,
                    },
                ),
                _ => Some(
                    DrawRange { vertices: self.quad_vertices, instances: dims.num_cells() as u32 },
                ),
            },
            r is Some ==> r->Some_0.instances == dims.num_cells() * (if mode
                == VolumeVisualizationMode::Velocity {
                3int
            } else {
                1int
            }),
    {
        proof {
            dims.lemma_sizes();
        }
        let cells: u32 = num_grid_cells(dims);
        match mode {
            VolumeVisualizationMode::Hidden => None,
            VolumeVisualizationMode::Velocity => Some(
                DrawRange { vertices: self.line_vertices, instances: cells * 3 },
            ),
            _ => Some(DrawRange { vertices: self.quad_vertices, instances: cells }),
        }
    }
}

impl SceneRenderer {
    /// The settings a renderer starts with: the fluid as a surface, no
    /// field over the volume, the outline of the grid shown.
    pub fn new() -> (r: SceneRenderer)
        ensures
            r == (SceneRenderer {
                fluid_rendering_mode: FluidRenderingMode::ScreenSpaceFluid,
                volume_visualization: VolumeVisualizationMode::Hidden,
                particle_radius_factor: 45875,
                enable_box_lines: true,
                velocity_visualization_scale: 524,
            }),
    {
        SceneRenderer {
            fluid_rendering_mode: FluidRenderingMode::ScreenSpaceFluid,
            volume_visualization: VolumeVisualizationMode::Hidden,
            particle_radius_factor: 45875,
            enable_box_lines: true,
            velocity_visualization_scale: 524,
        }
    }

    /// The outline of the grid of a new scene, in world space.
    pub fn on_new_scene(&self, fluid: &FluidConfig) -> (lines: Vec<Vec3>)
        ensures
            lines@ == box_lines(fluid.world_position, world_max(*fluid)),
    {
        let min: Vec3 = fluid.world_position;
        let max = Vec3 {
            x: world_far(min.x, fluid.grid_dimension.nx, fluid.grid_to_world_scale),
            y: world_far(min.y, fluid.grid_dimension.ny, fluid.grid_to_world_scale),
            z: world_far(min.z, fluid.grid_dimension.nz, fluid.grid_to_world_scale),
        };
        let mut lines: Vec<Vec3> = Vec::new();
        lines.push(Vec3 { x: min.x, y: min.y, z: max.z });
        lines.push(Vec3 { x: max.x, y: min.y, z: max.z });
        lines.push(Vec3 { x: max.x, y: min.y, z: max.z });
        lines.push(Vec3 { x: max.x, y: max.y, z: max.z });
        lines.push(Vec3 { x: max.x, y: max.y, z: max.z });
        lines.push(Vec3 { x: min.x, y: max.y, z: max.z });
        lines.push(Vec3 { x: min.x, y: max.y, z: max.z });
        lines.push(Vec3 { x: min.x, y: min.y, z: max.z });
        lines.push(Vec3 { x: min.x, y: min.y, z: min.z });
        lines.push(Vec3 { x: max.x, y: min.y, z: min.z });
        lines.push(Vec3 { x: max.x, y: min.y, z: min.z });
        lines.push(Vec3 { x: max.x, y: max.y, z: min.z });
        lines.push(Vec3 { x: max.x, y: max.y, z: min.z });
        lines.push(Vec3 { x: min.x, y: max.y, z: min.z });
        lines.push(Vec3 { x: min.x, y: max.y, z: min.z });
        lines.push(Vec3 { x: min.x, y: min.y, z: min.z });
        lines.push(Vec3 { x: min.x, y: min.y, z: min.z });
        lines.push(Vec3 { x: min.x, y: min.y, z: max.z });
        lines.push(Vec3 { x: max.x, y: min.y, z: min.z });
        lines.push(Vec3 { x: max.x, y: min.y, z: max.z });
        lines.push(Vec3 { x: max.x, y: max.y, z: min.z });
        lines.push(Vec3 { x: max.x, y: max.y, z: max.z });
        lines.push(Vec3 { x: min.x, y: max.y, z: min.z });
        lines.push(Vec3 { x: min.x, y: max.y, z: max.z });
        assert(lines@ =~= box_lines(fluid.world_position, world_max(*fluid)));
        lines
    }

    /// The settings for the shaders of a frame of the scene.
    pub fn fill_global_uniform_buffer(&self, fluid: &FluidConfig) -> (r:
        GlobalRenderSettingsUniformBufferContent)
        ensures
            r == (GlobalRenderSettingsUniformBufferContent {
                fluid_origin: fluid.world_position,
                fluid_grid_to_world_scale: fluid.grid_to_world_scale,
                velocity_visualization_scale: self.velocity_visualization_scale,
                fluid_particle_radius: particle_radius(
                    fluid.grid_to_world_scale as int,
                    self.particle_radius_factor as int,
                ) as i64,
            }),
    {
        let scale: i128 = fluid.grid_to_world_scale as i128;
        let factor: i128 = self.particle_radius_factor as i128;
        assert(-85070591730234615865843651857942052864 <= scale * factor
            <= 85070591730234615865843651857942052864) by (nonlinear_arith)
            requires
                -9223372036854775808 <= scale <= 9223372036854775807,
                -9223372036854775808 <= factor <= 9223372036854775807,
        ;
        GlobalRenderSettingsUniformBufferContent {
            fluid_origin: fluid.world_position,
            fluid_grid_to_world_scale: fluid.grid_to_world_scale,
            velocity_visualization_scale: self.velocity_visualization_scale,
            fluid_particle_radius: clamp_to(
                div_toward_zero(scale * factor, 131072),
                i64::MIN,
                i64::MAX,
            ),
        }
    }

    /// What a frame of a grid of the given dimensions draws.
    pub fn draw(&self, dims: &GridDims) -> (r: DrawPlan)
        requires
            dims.valid(),
        ensures
            r == (DrawPlan {
                particles: self.fluid_rendering_mode == FluidRenderingMode::Particles,
                volume: self.volume_visualization.spec_draw_range(*dims),
                box_lines: self.enable_box_lines,
                screen_space_fluid: self.fluid_rendering_mode
                    == FluidRenderingMode::ScreenSpaceFluid,
            }),
    {
        let (particles, screen_space_fluid) = match self.fluid_rendering_mode {
            FluidRenderingMode::Hidden => (false, false),
            FluidRenderingMode::ScreenSpaceFluid => (false, true),
            FluidRenderingMode::Particles => (true, false),
        };
        DrawPlan {
            particles,
            volume: self.volume_visualization.draw_range(dims),
            box_lines: self.enable_box_lines,
            screen_space_fluid,
        }
    }
}

} // verus!
