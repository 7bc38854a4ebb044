//! Forces and projection on the grid: gravity, divergence, the pressure
//! solve by a fixed number of relaxation sweeps, and the velocity correction.
//!
//! Pressure is kept already scaled by the timestep over the density, in
//! velocity units, so that its difference across a face is the correction
//! of that face's velocity.

use vstd::prelude::*;
use crate::fixed::{clamp, clamp_to, div_toward_zero, trunc_div, Vec3, PRESSURE_MAX, VEL_MAX};
use crate::grid::{marker_at, marker_of, unit, GridDims, Marker};
use crate::scheduler::NANOS_PER_SECOND;
use crate::transfer::bounded;

verus! {

/// Whether the face touches a solid cell; outside the grid all is solid.
pub open spec fn solid_face(
    dims: GridDims,
    markers: Seq<Marker>,
    axis: int,
    i: int,
    j: int,
    k: int,
) -> bool {
    marker_at(dims, markers, i - unit(axis, 0), j - unit(axis, 1), k - unit(axis, 2))
        == Marker::Solid || marker_at(dims, markers, i, j, k) == Marker::Solid
}

/// Whether the face touches a fluid cell.
pub open spec fn fluid_adjacent(
    dims: GridDims,
    markers: Seq<Marker>,
    axis: int,
    i: int,
    j: int,
    k: int,
) -> bool {
    marker_at(dims, markers, i - unit(axis, 0), j - unit(axis, 1), k - unit(axis, 2))
        == Marker::Fluid || marker_at(dims, markers, i, j, k) == Marker::Fluid
}

/// Change of velocity that an acceleration makes in one timestep.
pub open spec fn velocity_gain(acceleration: int, dt_ns: int) -> int {
    trunc_div(acceleration * dt_ns, NANOS_PER_SECOND as int)
}

/// Velocity of sample `s` after gravity: a face at a solid cell is held at
/// zero, a sample that carries fluid gains `gravity * dt`, any other sample
/// keeps its value.
pub open spec fn with_gravity(
    dims: GridDims,
    markers: Seq<Marker>,
    velocity: Seq<i64>,
    marked: Seq<bool>,
    gravity: Vec3,
    dt_ns: int,
    s: int,
) -> int {
    let axis = dims.sample_axis(s);
    if solid_face(dims, markers, axis, dims.sample_i(s), dims.sample_j(s), dims.sample_k(s)) {
        0
    } else if marked[s] {
        clamp(
            velocity[s] + velocity_gain(gravity.component(axis) as int, dt_ns),
            -VEL_MAX as int,
            VEL_MAX as int,
        )
    } else {
        velocity[s] as int
    }
}

/// Velocity through a face as the divergence sees it: nothing passes a
/// face at a solid cell.
pub open spec fn face_velocity(
    dims: GridDims,
    markers: Seq<Marker>,
    velocity: Seq<i64>,
    axis: int,
    i: int,
    j: int,
    k: int,
) -> int {
    if solid_face(dims, markers, axis, i, j, k) {
        0
    } else {
        velocity[dims.sample_index(axis, i, j, k)] as int
    }
}

/// Net outflow of cell `(i, j, k)` through its six faces; zero for a cell
/// that is not fluid.
pub open spec fn cell_divergence(
    dims: GridDims,
    markers: Seq<Marker>,
    velocity: Seq<i64>,
    i: int,
    j: int,
    k: int,
) -> int {
    if marker_at(dims, markers, i, j, k) == Marker::Fluid {
        face_velocity(dims, markers, velocity, 0, i + 1, j, k) - face_velocity(
            dims,
            markers,
            velocity,
            0,
            i,
            j,
            k,
        ) + face_velocity(dims, markers, velocity, 1, i, j + 1, k) - face_velocity(
            dims,
            markers,
            velocity,
            1,
            i,
            j,
            k,
        ) + face_velocity(dims, markers, velocity, 2, i, j, k + 1) - face_velocity(
            dims,
            markers,
            velocity,
            2,
            i,
            j,
            k,
        )
    } else {
        0
    }
}

/// The divergence field, cell by cell.
pub open spec fn divergence_field(dims: GridDims, markers: Seq<Marker>, velocity: Seq<i64>) -> Seq<
    i64,
> {
    Seq::new(
        dims.num_cells() as nat,
        |m: int|
            cell_divergence(
                dims,
                markers,
                velocity,
                dims.cell_i(m),
                dims.cell_j(m),
                dims.cell_k(m),
            ) as i64,
    )
}

/// Pressure of cell `(i, j, k)` as its neighbours see it: air and solid
/// hold zero.
pub open spec fn pressure_at(
    dims: GridDims,
    markers: Seq<Marker>,
    pressure: Seq<i64>,
    i: int,
    j: int,
    k: int,
) -> int {
    if marker_at(dims, markers, i, j, k) == Marker::Fluid {
        pressure[dims.cell_index(i, j, k)] as int
    } else {
        0
    }
}

/// 1 if cell `(i, j, k)` is not solid, else 0.
pub open spec fn open_cell(dims: GridDims, markers: Seq<Marker>, i: int, j: int, k: int) -> int {
    if marker_at(dims, markers, i, j, k) == Marker::Solid {
        0
    } else {
        1
    }
}

/// How many of the six neighbours of a cell are not solid.
pub open spec fn open_neighbours(dims: GridDims, markers: Seq<Marker>, i: int, j: int, k: int) -> int {
    open_cell(dims, markers, i - 1, j, k) + open_cell(dims, markers, i + 1, j, k) + open_cell(
        dims,
        markers,
        i,
        j - 1,
        k,
    ) + open_cell(dims, markers, i, j + 1, k) + open_cell(dims, markers, i, j, k - 1) + open_cell(
        dims,
        markers,
        i,
        j,
        k + 1,
    )
}

/// Sum of the pressures of the six neighbours of a cell.
pub open spec fn neighbour_pressure(
    dims: GridDims,
    markers: Seq<Marker>,
    pressure: Seq<i64>,
    i: int,
    j: int,
    k: int,
) -> int {
    pressure_at(dims, markers, pressure, i - 1, j, k) + pressure_at(
        dims,
        markers,
        pressure,
        i + 1,
        j,
        k,
    ) + pressure_at(dims, markers, pressure, i, j - 1, k) + pressure_at(
        dims,
        markers,
        pressure,
        i,
        j + 1,
        k,
    ) + pressure_at(dims, markers, pressure, i, j, k - 1) + pressure_at(
        dims,
        markers,
        pressure,
        i,
        j,
        k + 1,
    )
}

/// Pressure of a cell after one relaxation sweep. A fluid cell takes the
/// value that cancels its divergence if its neighbours keep theirs; solid
/// neighbours are left out of the stencil. Any other cell holds zero.
pub open spec fn relaxed_pressure(
    dims: GridDims,
    markers: Seq<Marker>,
    divergence: Seq<i64>,
    pressure: Seq<i64>,
    i: int,
    j: int,
    k: int,
) -> int {
    let open = open_neighbours(dims, markers, i, j, k);
    if marker_at(dims, markers, i, j, k) == Marker::Fluid && open > 0 {
        clamp(
            trunc_div(
                neighbour_pressure(dims, markers, pressure, i, j, k) - divergence[dims.cell_index(
                    i,
                    j,
                    k,
                )],
                open,
            ),
            -PRESSURE_MAX as int,
            PRESSURE_MAX as int,
        )
    } else {
        0
    }
}

/// One relaxation sweep over all cells, reading only the previous field.
pub open spec fn relaxation_sweep(
    dims: GridDims,
    markers: Seq<Marker>,
    divergence: Seq<i64>,
    pressure: Seq<i64>,
) -> Seq<i64> {
    Seq::new(
        dims.num_cells() as nat,
        |m: int|
            relaxed_pressure(
                dims,
                markers,
                divergence,
                pressure,
                dims.cell_i(m),
                dims.cell_j(m),
                dims.cell_k(m),
            ) as i64,
    )
}

/// The pressure field after `sweeps` relaxation sweeps from zero.
pub open spec fn solved_pressure(
    dims: GridDims,
    markers: Seq<Marker>,
    divergence: Seq<i64>,
    sweeps: nat,
) -> Seq<i64>
    decreases sweeps,
{
    if sweeps == 0 {
        Seq::new(dims.num_cells() as nat, |m: int| 0i64)
    } else {
        relaxation_sweep(
            dims,
            markers,
            divergence,
            solved_pressure(dims, markers, divergence, (sweeps - 1) as nat),
        )
    }
}

/// Velocity of sample `s` after the pressure gradient is taken off: a face
/// at a solid cell is held at zero, a face at a fluid cell loses the
/// pressure difference across it, any other sample keeps its value.
pub open spec fn corrected(
    dims: GridDims,
    markers: Seq<Marker>,
    velocity: Seq<i64>,
    pressure: Seq<i64>,
    s: int,
) -> int {
    let axis = dims.sample_axis(s);
    let (i, j, k) = (dims.sample_i(s), dims.sample_j(s), dims.sample_k(s));
    if solid_face(dims, markers, axis, i, j, k) {
        0
    } else if fluid_adjacent(dims, markers, axis, i, j, k) {
        clamp(
            velocity[s] - (pressure_at(dims, markers, pressure, i, j, k) - pressure_at(
                dims,
                markers,
                pressure,
                i - unit(axis, 0),
                j - unit(axis, 1),
                k - unit(axis, 2),
            )),
            -VEL_MAX as int,
            VEL_MAX as int,
        )
    } else {
        velocity[s] as int
    }
}

/// Every entry lies within `[-PRESSURE_MAX, PRESSURE_MAX]`.
pub open spec fn pressure_bounded(field: Seq<i64>) -> bool {
    forall|m: int| 0 <= m < field.len() ==> -PRESSURE_MAX <= #[trigger] field[m] <= PRESSURE_MAX
}

/// Every entry lies within six times `VEL_MAX` of zero.
pub open spec fn divergence_bounded(field: Seq<i64>) -> bool {
    forall|m: int| 0 <= m < field.len() ==> -6 * VEL_MAX <= #[trigger] field[m] <= 6 * VEL_MAX
}

/// The largest magnitude in the field.
pub open spec fn is_max_magnitude(field: Seq<i64>, r: int) -> bool {
    &&& forall|m: int| 0 <= m < field.len() ==> -r <= #[trigger] field[m] <= r
    &&& if field.len() == 0 {
        r == 0
    } else {
        exists|m: int| 0 <= m < field.len() && (#[trigger] field[m] == r || field[m] == -r)
    }
}

fn minus_marker(dims: &GridDims, markers: &Vec<Marker>, axis: u8, i: i64, j: i64, k: i64) -> (r:
    Marker)
    requires
        dims.valid(),
        markers@.len() == dims.num_cells(),
        -1 <= i <= 257,
        -1 <= j <= 257,
        -1 <= k <= 257,
    ensures
        r == marker_at(
            *dims,
            markers@,
            i - unit(axis as int, 0),
            j - unit(axis as int, 1),
            k - unit(axis as int, 2),
        ),
{
    if axis == 0 {
        marker_of(dims, markers, i - 1, j, k)
    } else if axis == 1 {
        marker_of(dims, markers, i, j - 1, k)
    } else if axis == 2 {
        marker_of(dims, markers, i, j, k - 1)
    } else {
        marker_of(dims, markers, i, j, k)
    }
}

fn is_solid(m: Marker) -> (r: bool)
    ensures
        r == (m == Marker::Solid),
{
    match m {
        Marker::Solid => true,
        _ => false,
    }
}

fn is_fluid(m: Marker) -> (r: bool)
    ensures
        r == (m == Marker::Fluid),
{
    match m {
        Marker::Fluid => true,
        _ => false,
    }
}

fn solid_face_of(dims: &GridDims, markers: &Vec<Marker>, axis: u8, i: i64, j: i64, k: i64) -> (r:
    bool)
    requires
        dims.valid(),
        markers@.len() == dims.num_cells(),
        -1 <= i <= 257,
        -1 <= j <= 257,
        -1 <= k <= 257,
    ensures
        r == solid_face(*dims, markers@, axis as int, i as int, j as int, k as int),
{
    is_solid(minus_marker(dims, markers, axis, i, j, k)) || is_solid(
        marker_of(dims, markers, i, j, k),
    )
}

fn fluid_adjacent_of(dims: &GridDims, markers: &Vec<Marker>, axis: u8, i: i64, j: i64, k: i64) -> (r:
    bool)
    requires
        dims.valid(),
        markers@.len() == dims.num_cells(),
        -1 <= i <= 257,
        -1 <= j <= 257,
        -1 <= k <= 257,
    ensures
        r == fluid_adjacent(*dims, markers@, axis as int, i as int, j as int, k as int),
{
    is_fluid(minus_marker(dims, markers, axis, i, j, k)) || is_fluid(
        marker_of(dims, markers, i, j, k),
    )
}

/// Adds `gravity * dt` to every sample that carries fluid.
pub fn apply_gravity(
    dims: &GridDims,
    markers: &Vec<Marker>,
    velocity: &Vec<i64>,
    marked: &Vec<bool>,
    gravity: Vec3,
    dt_ns: u64,
) -> (out: Vec<i64>)
    requires
        dims.valid(),
        markers@.len() == dims.num_cells(),
        velocity@.len() == dims.num_samples(),
        marked@.len() == dims.num_samples(),
        bounded(velocity@),
    ensures
        out@.len() == dims.num_samples(),
        bounded(out@),
        forall|s: int|
            0 <= s < dims.num_samples() ==> #[trigger] out@[s] == with_gravity(
                *dims,
                markers@,
                velocity@,
                marked@,
                gravity,
                dt_ns as int,
                s,
            ),
{
    let n: usize = dims.sample_count();
    let mut out: Vec<i64> = Vec::new();
    let mut s: usize = 0;
    while s < n
        invariant
            dims.valid(),
            n == dims.num_samples(),
            s <= n,
            markers@.len() == dims.num_cells(),
            velocity@.len() == n,
            marked@.len() == n,
            bounded(velocity@),
            out@.len() == s,
            forall|t: int| 0 <= t < s ==> -VEL_MAX <= #[trigger] out@[t] <= VEL_MAX,
            forall|t: int|
                0 <= t < s ==> #[trigger] out@[t] == with_gravity(
                    *dims,
                    markers@,
                    velocity@,
                    marked@,
                    gravity,
                    dt_ns as int,
                    t,
                ),
        decreases n - s,
    {
        let (axis, i, j, k) = dims.sample_coords(s);
        let v: i64 = if solid_face_of(dims, markers, axis, i as i64, j as i64, k as i64) {
            0
        } else if marked[s] {
            let g: i128 = gravity.get(axis) as i128;
            assert(-170141183460469231722463931679029329920 <= g * dt_ns
                <= 170141183460469231722463931679029329920) by (nonlinear_arith)
                requires
                    -9223372036854775808 <= g <= 9223372036854775807,
                    0 <= dt_ns <= 18446744073709551615,
            ;
            let gain: i128 = div_toward_zero(g * (dt_ns as i128), NANOS_PER_SECOND as i128);
            assert(-VEL_MAX <= velocity@[s as int] <= VEL_MAX);
            clamp_to(velocity[s] as i128 + gain, -VEL_MAX, VEL_MAX)
        } else {
            assert(-VEL_MAX <= velocity@[s as int] <= VEL_MAX);
            velocity[s]
        };
        out.push(v);
        s += 1;
    }
    out
}

fn face_velocity_of(
    dims: &GridDims,
    markers: &Vec<Marker>,
    velocity: &Vec<i64>,
    axis: u8,
    i: u32,
    j: u32,
    k: u32,
) -> (r: i64)
    requires
        dims.valid(),
        markers@.len() == dims.num_cells(),
        velocity@.len() == dims.num_samples(),
        bounded(velocity@),
        axis < 3,
        dims.node_in(i as int, j as int, k as int),
    ensures
        r == face_velocity(*dims, markers@, velocity@, axis as int, i as int, j as int, k as int),
        -VEL_MAX <= r <= VEL_MAX,
{
    if solid_face_of(dims, markers, axis, i as i64, j as i64, k as i64) {
        0
    } else {
        let s: usize = dims.sample_number(axis, i, j, k);
        assert(-VEL_MAX <= velocity@[s as int] <= VEL_MAX);
        velocity[s]
    }
}

/// Computes the net outflow of every fluid cell.
pub fn compute_divergence(dims: &GridDims, markers: &Vec<Marker>, velocity: &Vec<i64>) -> (out: Vec<
    i64,
>)
    requires
        dims.valid(),
        markers@.len() == dims.num_cells(),
        velocity@.len() == dims.num_samples(),
        bounded(velocity@),
    ensures
        out@ == divergence_field(*dims, markers@, velocity@),
        divergence_bounded(out@),
{
    let n: usize = dims.cell_count();
    let mut out: Vec<i64> = Vec::new();
    let mut m: usize = 0;
    while m < n
        invariant
            dims.valid(),
            n == dims.num_cells(),
            m <= n,
            markers@.len() == n,
            velocity@.len() == dims.num_samples(),
            bounded(velocity@),
            out@.len() == m,
            forall|c: int| 0 <= c < m ==> -6 * VEL_MAX <= #[trigger] out@[c] <= 6 * VEL_MAX,
            forall|c: int|
                0 <= c < m ==> #[trigger] out@[c] == cell_divergence(
                    *dims,
                    markers@,
                    velocity@,
                    dims.cell_i(c),
                    dims.cell_j(c),
                    dims.cell_k(c),
                ),
        decreases n - m,
    {
        let (i, j, k) = dims.cell_coords(m);
        let d: i64 = if is_fluid(marker_of(dims, markers, i as i64, j as i64, k as i64)) {
            let x1: i64 = face_velocity_of(dims, markers, velocity, 0, i + 1, j, k);
            let x0: i64 = face_velocity_of(dims, markers, velocity, 0, i, j, k);
            let y1: i64 = face_velocity_of(dims, markers, velocity, 1, i, j + 1, k);
            let y0: i64 = face_velocity_of(dims, markers, velocity, 1, i, j, k);
            let z1: i64 = face_velocity_of(dims, markers, velocity, 2, i, j, k + 1);
            let z0: i64 = face_velocity_of(dims, markers, velocity, 2, i, j, k);
            x1 - x0 + y1 - y0 + z1 - z0
        } else {
            0
        };
        out.push(d);
        m += 1;
    }
    assert(out@ =~= divergence_field(*dims, markers@, velocity@));
    out
}

fn pressure_of(dims: &GridDims, markers: &Vec<Marker>, pressure: &Vec<i64>, i: i64, j: i64, k: i64) -> (r:
    i64)
    requires
        dims.valid(),
        markers@.len() == dims.num_cells(),
        pressure@.len() == dims.num_cells(),
        pressure_bounded(pressure@),
    ensures
        r == pressure_at(*dims, markers@, pressure@, i as int, j as int, k as int),
        -PRESSURE_MAX <= r <= PRESSURE_MAX,
{
    if is_fluid(marker_of(dims, markers, i, j, k)) {
        let c: usize = dims.cell_number(i as u32, j as u32, k as u32);
        assert(-PRESSURE_MAX <= pressure@[c as int] <= PRESSURE_MAX);
        pressure[c]
    } else {
        0
    }
}

fn open_of(dims: &GridDims, markers: &Vec<Marker>, i: i64, j: i64, k: i64) -> (r: i64)
    requires
        dims.valid(),
        markers@.len() == dims.num_cells(),
    ensures
        r == open_cell(*dims, markers@, i as int, j as int, k as int),
        0 <= r <= 1,
{
    if is_solid(marker_of(dims, markers, i, j, k)) {
        0
    } else {
        1
    }
}

/// One relaxation sweep: every cell is computed from the previous field
/// into a fresh one.
pub fn relax(dims: &GridDims, markers: &Vec<Marker>, divergence: &Vec<i64>, pressure: &Vec<i64>) -> (out:
    Vec<i64>)
    requires
        dims.valid(),
        markers@.len() == dims.num_cells(),
        divergence@.len() == dims.num_cells(),
        pressure@.len() == dims.num_cells(),
        divergence_bounded(divergence@),
        pressure_bounded(pressure@),
    ensures
        out@ == relaxation_sweep(*dims, markers@, divergence@, pressure@),
        pressure_bounded(out@),
{
    let n: usize = dims.cell_count();
    let mut out: Vec<i64> = Vec::new();
    let mut m: usize = 0;
    while m < n
        invariant
            dims.valid(),
            n == dims.num_cells(),
            m <= n,
            markers@.len() == n,
            divergence@.len() == n,
            pressure@.len() == n,
            divergence_bounded(divergence@),
            pressure_bounded(pressure@),
            out@.len() == m,
            forall|c: int| 0 <= c < m ==> -PRESSURE_MAX <= #[trigger] out@[c] <= PRESSURE_MAX,
            forall|c: int|
                0 <= c < m ==> #[trigger] out@[c] == relaxed_pressure(
                    *dims,
                    markers@,
                    divergence@,
                    pressure@,
                    dims.cell_i(c),
                    dims.cell_j(c),
                    dims.cell_k(c),
                ),
        decreases n - m,
    {
        let (iu, ju, ku) = dims.cell_coords(m);
        let i: i64 = iu as i64;
        let j: i64 = ju as i64;
        let k: i64 = ku as i64;
        let open: i64 = open_of(dims, markers, i - 1, j, k) + open_of(dims, markers, i + 1, j, k)
            + open_of(dims, markers, i, j - 1, k) + open_of(dims, markers, i, j + 1, k) + open_of(
            dims,
            markers,
            i,
            j,
            k - 1,
        ) + open_of(dims, markers, i, j, k + 1);
        let p: i64 = if is_fluid(marker_of(dims, markers, i, j, k)) && open > 0 {
            let sum: i64 = pressure_of(dims, markers, pressure, i - 1, j, k) + pressure_of(
                dims,
                markers,
                pressure,
                i + 1,
                j,
                k,
            ) + pressure_of(dims, markers, pressure, i, j - 1, k) + pressure_of(
                dims,
                markers,
                pressure,
                i,
                j + 1,
                k,
            ) + pressure_of(dims, markers, pressure, i, j, k - 1) + pressure_of(
                dims,
                markers,
                pressure,
                i,
                j,
                k + 1,
            );
            proof {
                dims.lemma_cell_coords(m as int);
            }
            assert(-6 * VEL_MAX <= divergence@[m as int] <= 6 * VEL_MAX);
            let rhs: i64 = sum - divergence[m];
            clamp_to(div_toward_zero(rhs as i128, open as i128), -PRESSURE_MAX, PRESSURE_MAX)
        } else {
            0
        };
        out.push(p);
        m += 1;
    }
    assert(out@ =~= relaxation_sweep(*dims, markers@, divergence@, pressure@));
    out
}

/// Solves for the pressure by exactly `sweeps` relaxation sweeps from zero,
/// each reading the field the one before it wrote.
pub fn solve_pressure(dims: &GridDims, markers: &Vec<Marker>, divergence: &Vec<i64>, sweeps: u32) -> (out:
    Vec<i64>)
    requires
        dims.valid(),
        markers@.len() == dims.num_cells(),
        divergence@.len() == dims.num_cells(),
        divergence_bounded(divergence@),
    ensures
        out@ == solved_pressure(*dims, markers@, divergence@, sweeps as nat),
        out@.len() == dims.num_cells(),
        pressure_bounded(out@),
{
    let n: usize = dims.cell_count();
    let mut current: Vec<i64> = Vec::new();
    let mut m: usize = 0;
    while m < n
        invariant
            m <= n,
            current@.len() == m,
            forall|c: int| 0 <= c < m ==> #[trigger] current@[c] == 0,
        decreases n - m,
    {
        current.push(0);
        m += 1;
    }
    assert(current@ =~= solved_pressure(*dims, markers@, divergence@, 0));
    let mut done: u32 = 0;
    while done < sweeps
        invariant
            dims.valid(),
            done <= sweeps,
            markers@.len() == dims.num_cells(),
            divergence@.len() == dims.num_cells(),
            divergence_bounded(divergence@),
            current@.len() == dims.num_cells(),
            pressure_bounded(current@),
            current@ == solved_pressure(*dims, markers@, divergence@, done as nat),
        decreases sweeps - done,
    {
        current = relax(dims, markers, divergence, &current);
        done += 1;
    }
    current
}

/// Takes the pressure gradient off the velocities.
pub fn correct_velocity(
    dims: &GridDims,
    markers: &Vec<Marker>,
    velocity: &Vec<i64>,
    pressure: &Vec<i64>,
) -> (out: Vec<i64>)
    requires
        dims.valid(),
        markers@.len() == dims.num_cells(),
        velocity@.len() == dims.num_samples(),
        pressure@.len() == dims.num_cells(),
        bounded(velocity@),
        pressure_bounded(pressure@),
    ensures
        out@.len() == dims.num_samples(),
        bounded(out@),
        forall|s: int|
            0 <= s < dims.num_samples() ==> #[trigger] out@[s] == corrected(
                *dims,
                markers@,
                velocity@,
                pressure@,
                s,
            ),
{
    let n: usize = dims.sample_count();
    let mut out: Vec<i64> = Vec::new();
    let mut s: usize = 0;
    while s < n
        invariant
            dims.valid(),
            n == dims.num_samples(),
            s <= n,
            markers@.len() == dims.num_cells(),
            pressure@.len() == dims.num_cells(),
            velocity@.len() == n,
            bounded(velocity@),
            pressure_bounded(pressure@),
            out@.len() == s,
            forall|t: int| 0 <= t < s ==> -VEL_MAX <= #[trigger] out@[t] <= VEL_MAX,
            forall|t: int|
                0 <= t < s ==> #[trigger] out@[t] == corrected(
                    *dims,
                    markers@,
                    velocity@,
                    pressure@,
                    t,
                ),
        decreases n - s,
    {
        let (axis, iu, ju, ku) = dims.sample_coords(s);
        let i: i64 = iu as i64;
        let j: i64 = ju as i64;
        let k: i64 = ku as i64;
        assert(-VEL_MAX <= velocity@[s as int] <= VEL_MAX);
        let v: i64 = if solid_face_of(dims, markers, axis, i, j, k) {
            0
        } else if fluid_adjacent_of(dims, markers, axis, i, j, k) {
            let plus: i64 = pressure_of(dims, markers, pressure, i, j, k);
            let minus: i64 = if axis == 0 {
                pressure_of(dims, markers, pressure, i - 1, j, k)
            } else if axis == 1 {
                pressure_of(dims, markers, pressure, i, j - 1, k)
            } else {
                pressure_of(dims, markers, pressure, i, j, k - 1)
            };
            clamp_to(velocity[s] as i128 - (plus as i128 - minus as i128), -VEL_MAX, VEL_MAX)
        } else {
            velocity[s]
        };
        out.push(v);
        s += 1;
    }
    out
}

/// The largest magnitude of divergence in the field: what the pressure
/// solve has left over when the field is that of the corrected velocities.
pub fn max_magnitude(field: &Vec<i64>) -> (r: i64)
    requires
        divergence_bounded(field@),
    ensures
        is_max_magnitude(field@, r as int),
{
    let mut best: i64 = 0;
    let mut m: usize = 0;
    while m < field.len()
        invariant
            m <= field@.len(),
            divergence_bounded(field@),
            0 <= best <= 6 * VEL_MAX,
            forall|c: int| 0 <= c < m ==> -best <= #[trigger] field@[c] <= best,
            if m == 0 {
                best == 0
            } else {
                exists|c: int| 0 <= c < m && (#[trigger] field@[c] == best || field@[c] == -best)
            },
        decreases field@.len() - m,
    {
        let v: i64 = field[m];
        assert(-6 * VEL_MAX <= field@[m as int] <= 6 * VEL_MAX);
        let a: i64 = if v < 0 { -v } else { v };
        if a > best || m == 0 {
            best = a;
            assert(field@[m as int] == best || field@[m as int] == -best);
        } else {
            proof {
                let w = choose|c: int|
                    0 <= c < m && (#[trigger] field@[c] == best || field@[c] == -best);
                assert(field@[w] == best || field@[w] == -best);
            }
        }
        m += 1;
    }
    best
}

/// The velocity field after the pressure gradient is taken off.
pub open spec fn corrected_field(
    dims: GridDims,
    markers: Seq<Marker>,
    velocity: Seq<i64>,
    pressure: Seq<i64>,
) -> Seq<i64> {
    Seq::new(
        dims.num_samples() as nat,
        |s: int| corrected(dims, markers, velocity, pressure, s) as i64,
    )
}

/// Whether the field is zero in every cell.
pub open spec fn all_zero(field: Seq<i64>) -> bool {
    forall|m: int| 0 <= m < field.len() ==> #[trigger] field[m] == 0
}

/// Where no cell has any divergence, the pressure stays zero, however many
/// sweeps are made.
pub proof fn lemma_no_divergence_no_pressure(
    dims: GridDims,
    markers: Seq<Marker>,
    divergence: Seq<i64>,
    sweeps: nat,
)
    requires
        dims.valid(),
        markers.len() == dims.num_cells(),
        divergence.len() == dims.num_cells(),
        all_zero(divergence),
    ensures
        solved_pressure(dims, markers, divergence, sweeps).len() == dims.num_cells(),
        all_zero(solved_pressure(dims, markers, divergence, sweeps)),
    decreases sweeps,
{
    if sweeps > 0 {
        lemma_no_divergence_no_pressure(dims, markers, divergence, (sweeps - 1) as nat);
        let prev = solved_pressure(dims, markers, divergence, (sweeps - 1) as nat);
        let next = solved_pressure(dims, markers, divergence, sweeps);
        assert forall|m: int| 0 <= m < next.len() implies #[trigger] next[m] == 0 by {
            dims.lemma_cell_coords(m);
            let (i, j, k) = (dims.cell_i(m), dims.cell_j(m), dims.cell_k(m));
            lemma_pressure_at_zero(dims, markers, prev, i - 1, j, k);
            lemma_pressure_at_zero(dims, markers, prev, i + 1, j, k);
            lemma_pressure_at_zero(dims, markers, prev, i, j - 1, k);
            lemma_pressure_at_zero(dims, markers, prev, i, j + 1, k);
            lemma_pressure_at_zero(dims, markers, prev, i, j, k - 1);
            lemma_pressure_at_zero(dims, markers, prev, i, j, k + 1);
            assert(divergence[m] == 0);
        }
    }
}

/// A pressure field that is zero everywhere is zero as seen from any
/// neighbour, in the grid or outside.
pub proof fn lemma_pressure_at_zero(
    dims: GridDims,
    markers: Seq<Marker>,
    pressure: Seq<i64>,
    i: int,
    j: int,
    k: int,
)
    requires
        dims.valid(),
        pressure.len() == dims.num_cells(),
        all_zero(pressure),
    ensures
        pressure_at(dims, markers, pressure, i, j, k) == 0,
{
    if dims.cell_in(i, j, k) {
        dims.lemma_cell_index(i, j, k);
    }
}

/// A velocity field without divergence in any fluid cell comes out of the
/// projection without divergence, whatever the number of sweeps: the
/// projection does no harm where there is nothing to mend.
pub proof fn lemma_projection_keeps_divergence_free(
    dims: GridDims,
    markers: Seq<Marker>,
    velocity: Seq<i64>,
    sweeps: nat,
)
    requires
        dims.valid(),
        markers.len() == dims.num_cells(),
        velocity.len() == dims.num_samples(),
        bounded(velocity),
        all_zero(divergence_field(dims, markers, velocity)),
    ensures
        all_zero(
            divergence_field(
                dims,
                markers,
                corrected_field(
                    dims,
                    markers,
                    velocity,
                    solved_pressure(
                        dims,
                        markers,
                        divergence_field(dims, markers, velocity),
                        sweeps,
                    ),
                ),
            ),
        ),
{
    let divergence = divergence_field(dims, markers, velocity);
    let pressure = solved_pressure(dims, markers, divergence, sweeps);
    let after = corrected_field(dims, markers, velocity, pressure);
    lemma_no_divergence_no_pressure(dims, markers, divergence, sweeps);
    assert forall|axis: int, i: int, j: int, k: int|
        0 <= axis < 3 && dims.node_in(i, j, k) implies #[trigger] face_velocity(
        dims,
        markers,
        after,
        axis,
        i,
        j,
        k,
    ) == face_velocity(dims, markers, velocity, axis, i, j, k) by {
        dims.lemma_sample_index(axis, i, j, k);
        let s = dims.sample_index(axis, i, j, k);
        lemma_pressure_at_zero(dims, markers, pressure, i, j, k);
        lemma_pressure_at_zero(
            dims,
            markers,
            pressure,
            i - unit(axis, 0),
            j - unit(axis, 1),
            k - unit(axis, 2),
        );
        assert(-VEL_MAX <= velocity[s] <= VEL_MAX);
    }
    let left = divergence_field(dims, markers, after);
    assert forall|m: int| 0 <= m < left.len() implies #[trigger] left[m] == 0 by {
        dims.lemma_cell_coords(m);
        assert(divergence[m] == 0);
    }
}

} // verus!
