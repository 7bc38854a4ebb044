//! The lattice of the staggered grid: its dimensions, how cells and velocity
//! samples are numbered, and the marker field.
//!
//! Cell `(i, j, k)` spans `[i, i + 1) x [j, j + 1) x [k, k + 1)` in grid
//! units. The velocity component along an axis is sampled at the centres of
//! the faces that are normal to that axis: sample `(i, j, k)` of the
//! x-component lies at `(i, j + 1/2, k + 1/2)`, between cells `(i - 1, j, k)`
//! and `(i, j, k)`. All three components are numbered on one lattice of
//! `(nx + 1) (ny + 1) (nz + 1)` nodes; a sample whose face lies outside the
//! grid stays zero.

use vstd::prelude::*;
use vstd::arithmetic::div_mod::*;
use crate::fixed::{Vec3, ONE};
use crate::particles::Particle;

verus! {

/// The largest number of cells along one axis.
pub const MAX_DIM: u32 = 256;

/// What a cell holds in the current step.
#[derive(Clone, Copy, Debug, PartialEq, Eq, Structural)]
pub enum Marker {
    Air,
    Fluid,
    Solid,
}

/// Number of cells along each axis.
#[derive(Clone, Copy, Debug, PartialEq, Eq, Structural)]
pub struct GridDims {
    pub nx: u32,
    pub ny: u32,
    pub nz: u32,
}

impl GridDims {
    /// Each dimension is at least 1 and at most `MAX_DIM`.
    pub open spec fn valid(self) -> bool {
        &&& 1 <= self.nx <= MAX_DIM
        &&& 1 <= self.ny <= MAX_DIM
        &&& 1 <= self.nz <= MAX_DIM
    }

    /// Cells along `axis`.
    pub open spec fn extent(self, axis: int) -> int {
        if axis == 0 {
            self.nx as int
        } else if axis == 1 {
            self.ny as int
        } else {
            self.nz as int
        }
    }

    pub open spec fn num_cells(self) -> int {
        self.nx * self.ny * self.nz
    }

    pub open spec fn num_nodes(self) -> int {
        (self.nx + 1) * (self.ny + 1) * (self.nz + 1)
    }

    /// Velocity samples of all three components together.
    pub open spec fn num_samples(self) -> int {
        3 * self.num_nodes()
    }

    pub open spec fn cell_in(self, i: int, j: int, k: int) -> bool {
        &&& 0 <= i < self.nx
        &&& 0 <= j < self.ny
        &&& 0 <= k < self.nz
    }

    pub open spec fn cell_index(self, i: int, j: int, k: int) -> int {
        (k * self.ny + j) * self.nx + i
    }

    pub open spec fn cell_i(self, m: int) -> int {
        m % (self.nx as int)
    }

    pub open spec fn cell_j(self, m: int) -> int {
        (m / (self.nx as int)) % (self.ny as int)
    }

    pub open spec fn cell_k(self, m: int) -> int {
        (m / (self.nx as int)) / (self.ny as int)
    }

    pub open spec fn node_in(self, i: int, j: int, k: int) -> bool {
        &&& 0 <= i <= self.nx
        &&& 0 <= j <= self.ny
        &&& 0 <= k <= self.nz
    }

    pub open spec fn node_index(self, i: int, j: int, k: int) -> int {
        (k * (self.ny + 1) + j) * (self.nx + 1) + i
    }

    /// Number of the sample `(i, j, k)` of the component along `axis`.
    pub open spec fn sample_index(self, axis: int, i: int, j: int, k: int) -> int {
        axis * self.num_nodes() + self.node_index(i, j, k)
    }

    pub open spec fn sample_axis(self, s: int) -> int {
        s / self.num_nodes()
    }

    pub open spec fn sample_i(self, s: int) -> int {
        (s % self.num_nodes()) % (self.nx + 1)
    }

    pub open spec fn sample_j(self, s: int) -> int {
        ((s % self.num_nodes()) / (self.nx + 1)) % (self.ny + 1)
    }

    pub open spec fn sample_k(self, s: int) -> int {
        ((s % self.num_nodes()) / (self.nx + 1)) / (self.ny + 1)
    }

    /// Whether sample `(i, j, k)` of the component along `axis` is a face of
    /// some cell of the grid.
    pub open spec fn face_in(self, axis: int, i: int, j: int, k: int) -> bool {
        &&& 0 <= axis < 3
        &&& 0 <= i < self.nx + (if axis == 0 { 1int } else { 0int })
        &&& 0 <= j < self.ny + (if axis == 1 { 1int } else { 0int })
        &&& 0 <= k < self.nz + (if axis == 2 { 1int } else { 0int })
    }

    /// No lattice of a valid grid has more entries than a `u32` counts.
    pub proof fn lemma_sizes(self)
        requires
            self.valid(),
        ensures
            1 <= self.num_cells() <= 16777216,
            8 <= self.num_nodes() <= 16974593,
            self.num_samples() <= 50923779,
    {
        let (a, b, c) = (self.nx as int, self.ny as int, self.nz as int);
        assert(1 <= a * b * c <= 256 * 256 * 256 && 8 <= (a + 1) * (b + 1) * (c + 1) <= 257 * 257
            * 257) by (nonlinear_arith)
            requires
                1 <= a <= 256,
                1 <= b <= 256,
                1 <= c <= 256,
        ;
    }

    /// A cell of the grid has a number below the number of cells, and the
    /// number gives the cell back.
    pub proof fn lemma_cell_index(self, i: int, j: int, k: int)
        requires
            self.valid(),
            self.cell_in(i, j, k),
        ensures
            0 <= self.cell_index(i, j, k) < self.num_cells(),
            0 <= k * self.ny + j < self.ny * self.nz,
            0 <= k * self.ny <= 65536,
            self.cell_i(self.cell_index(i, j, k)) == i,
            self.cell_j(self.cell_index(i, j, k)) == j,
            self.cell_k(self.cell_index(i, j, k)) == k,
    {
        let (a, b, c) = (self.nx as int, self.ny as int, self.nz as int);
        let row = k * b + j;
        assert(0 <= row < b * c && 0 <= row * a + i < a * b * c && 0 <= k * b <= 65536)
            by (nonlinear_arith)
            requires
                row == k * b + j,
                0 <= i < a <= 256,
                0 <= j < b <= 256,
                0 <= k < c <= 256,
        ;
        lemma_fundamental_div_mod_converse(row * a + i, a, row, i);
        lemma_fundamental_div_mod_converse(row, b, k, j);
    }

    /// Every number below the number of cells is the number of the cell
    /// it decodes to, and that cell lies in the grid.
    pub proof fn lemma_cell_coords(self, m: int)
        requires
            self.valid(),
            0 <= m < self.num_cells(),
        ensures
            self.cell_in(self.cell_i(m), self.cell_j(m), self.cell_k(m)),
            self.cell_index(self.cell_i(m), self.cell_j(m), self.cell_k(m)) == m,
    {
        let (a, b, c) = (self.nx as int, self.ny as int, self.nz as int);
        lemma_fundamental_div_mod(m, a);
        lemma_mod_bound(m, a);
        let row = m / a;
        assert(0 <= row < b * c) by (nonlinear_arith)
            requires
                m == a * row + m % a,
                0 <= m % a < a,
                0 <= m < a * b * c,
                a > 0,
        ;
        lemma_fundamental_div_mod(row, b);
        lemma_mod_bound(row, b);
        let k = row / b;
        assert(0 <= k < c) by (nonlinear_arith)
            requires
                row == b * k + row % b,
                0 <= row % b < b,
                0 <= row < b * c,
                b > 0,
        ;
        assert((k * b + row % b) * a + m % a == m) by (nonlinear_arith)
            requires
                row == b * k + row % b,
                m == a * row + m % a,
        ;
    }

    /// A node of the lattice has a number below the number of nodes.
    pub proof fn lemma_node_index(self, i: int, j: int, k: int)
        requires
            self.valid(),
            self.node_in(i, j, k),
        ensures
            0 <= self.node_index(i, j, k) < self.num_nodes(),
            0 <= k * (self.ny + 1) + j < (self.ny + 1) * (self.nz + 1),
            0 <= k * (self.ny + 1) <= 66049,
    {
        let (a, b, c) = (self.nx + 1, self.ny + 1, self.nz + 1);
        let row = k * b + j;
        assert(0 <= row < b * c && 0 <= row * a + i < a * b * c && 0 <= k * b <= 66049)
            by (nonlinear_arith)
            requires
                row == k * b + j,
                0 <= i < a <= 257,
                0 <= j < b <= 257,
                0 <= k < c <= 257,
        ;
    }

    /// A sample has a number below the number of samples, and the number
    /// gives component and node back.
    pub proof fn lemma_sample_index(self, axis: int, i: int, j: int, k: int)
        requires
            self.valid(),
            0 <= axis < 3,
            self.node_in(i, j, k),
        ensures
            0 <= self.sample_index(axis, i, j, k) < self.num_samples(),
            self.sample_axis(self.sample_index(axis, i, j, k)) == axis,
            self.sample_i(self.sample_index(axis, i, j, k)) == i,
            self.sample_j(self.sample_index(axis, i, j, k)) == j,
            self.sample_k(self.sample_index(axis, i, j, k)) == k,
    {
        self.lemma_sizes();
        self.lemma_node_index(i, j, k);
        let n = self.num_nodes();
        let (a, b) = (self.nx + 1, self.ny + 1);
        let row = k * b + j;
        let node = self.node_index(i, j, k);
        assert(0 <= axis * n + node < 3 * n) by (nonlinear_arith)
            requires
                0 <= axis < 3,
                0 <= node < n,
        ;
        lemma_fundamental_div_mod_converse(axis * n + node, n, axis, node);
        lemma_fundamental_div_mod_converse(row * a + i, a, row, i);
        lemma_fundamental_div_mod_converse(row, b, k, j);
    }

    /// Every number below the number of samples is the number of the
    /// sample it decodes to.
    pub proof fn lemma_sample_coords(self, s: int)
        requires
            self.valid(),
            0 <= s < self.num_samples(),
        ensures
            0 <= self.sample_axis(s) < 3,
            self.node_in(self.sample_i(s), self.sample_j(s), self.sample_k(s)),
            self.sample_index(
                self.sample_axis(s),
                self.sample_i(s),
                self.sample_j(s),
                self.sample_k(s),
            ) == s,
    {
        self.lemma_sizes();
        let n = self.num_nodes();
        let (a, b, c) = (self.nx + 1, self.ny + 1, self.nz + 1);
        lemma_fundamental_div_mod(s, n);
        lemma_mod_bound(s, n);
        let axis = s / n;
        let m = s % n;
        assert(0 <= axis < 3 && axis * n + m == s) by (nonlinear_arith)
            requires
                s == n * axis + m,
                0 <= m < n,
                0 <= s < 3 * n,
        ;
        lemma_fundamental_div_mod(m, a);
        lemma_mod_bound(m, a);
        let row = m / a;
        assert(0 <= row < b * c) by (nonlinear_arith)
            requires
                m == a * row + m % a,
                0 <= m % a < a,
                0 <= m < a * b * c,
                a > 0,
        ;
        lemma_fundamental_div_mod(row, b);
        lemma_mod_bound(row, b);
        let k = row / b;
        assert(0 <= k < c) by (nonlinear_arith)
            requires
                row == b * k + row % b,
                0 <= row % b < b,
                0 <= row < b * c,
                b > 0,
        ;
        assert((k * b + row % b) * a + m % a == m) by (nonlinear_arith)
            requires
                row == b * k + row % b,
                m == a * row + m % a,
        ;
    }

    /// A grid of the given dimensions, if each is between 1 and `MAX_DIM`.
    pub fn new(nx: u32, ny: u32, nz: u32) -> (r: Option<GridDims>)
        ensures
            r is Some <==> (GridDims { nx, ny, nz }).valid(),
            r is Some ==> r->Some_0 == (GridDims { nx, ny, nz }),
    {
        if nx >= 1 && nx <= MAX_DIM && ny >= 1 && ny <= MAX_DIM && nz >= 1 && nz <= MAX_DIM {
            Some(GridDims { nx, ny, nz })
        } else {
            None
        }
    }

    pub fn cell_count(&self) -> (r: usize)
        requires
            self.valid(),
        ensures
            r == self.num_cells(),
    {
        proof {
            self.lemma_sizes();
            assert(self.nx * self.ny <= 65536) by (nonlinear_arith)
                requires
                    self.nx <= 256,
                    self.ny <= 256,
            ;
        }
        let n: u64 = (self.nx as u64) * (self.ny as u64) * (self.nz as u64);
        n as usize
    }

    pub fn node_count(&self) -> (r: usize)
        requires
            self.valid(),
        ensures
            r == self.num_nodes(),
    {
        proof {
            self.lemma_sizes();
            assert((self.nx + 1) * (self.ny + 1) <= 66049) by (nonlinear_arith)
                requires
                    self.nx <= 256,
                    self.ny <= 256,
            ;
        }
        let n: u64 = (self.nx as u64 + 1) * (self.ny as u64 + 1) * (self.nz as u64 + 1);
        n as usize
    }

    pub fn sample_count(&self) -> (r: usize)
        requires
            self.valid(),
        ensures
            r == self.num_samples(),
    {
        proof {
            self.lemma_sizes();
        }
        3 * self.node_count()
    }

    pub fn cell_number(&self, i: u32, j: u32, k: u32) -> (r: usize)
        requires
            self.valid(),
            self.cell_in(i as int, j as int, k as int),
        ensures
            r == self.cell_index(i as int, j as int, k as int),
            r < self.num_cells(),
    {
        proof {
            self.lemma_sizes();
            self.lemma_cell_index(i as int, j as int, k as int);
        }
        let row: u64 = (k as u64) * (self.ny as u64) + j as u64;
        let n: u64 = row * (self.nx as u64) + i as u64;
        n as usize
    }

    pub fn cell_coords(&self, m: usize) -> (r: (u32, u32, u32))
        requires
            self.valid(),
            m < self.num_cells(),
        ensures
            r.0 == self.cell_i(m as int),
            r.1 == self.cell_j(m as int),
            r.2 == self.cell_k(m as int),
            self.cell_in(r.0 as int, r.1 as int, r.2 as int),
    {
        proof {
            self.lemma_sizes();
            self.lemma_cell_coords(m as int);
        }
        let row: usize = m / (self.nx as usize);
        ((m % (self.nx as usize)) as u32, (row % (self.ny as usize)) as u32, (row / (
        self.ny as usize)) as u32)
    }

    pub fn sample_number(&self, axis: u8, i: u32, j: u32, k: u32) -> (r: usize)
        requires
            self.valid(),
            axis < 3,
            self.node_in(i as int, j as int, k as int),
        ensures
            r == self.sample_index(axis as int, i as int, j as int, k as int),
            r < self.num_samples(),
    {
        proof {
            self.lemma_sizes();
            self.lemma_node_index(i as int, j as int, k as int);
            assert(axis * self.num_nodes() + self.node_index(i as int, j as int, k as int) < 3
                * self.num_nodes()) by (nonlinear_arith)
                requires
                    0 <= axis < 3,
                    self.node_index(i as int, j as int, k as int) < self.num_nodes(),
            ;
            assert(0 <= axis * self.num_nodes() <= 2 * self.num_nodes()) by (nonlinear_arith)
                requires
                    0 <= axis < 3,
                    self.num_nodes() >= 0,
            ;
        }
        let row: u64 = (k as u64) * (self.ny as u64 + 1) + j as u64;
        let node: u64 = row * (self.nx as u64 + 1) + i as u64;
        let n: u64 = (axis as u64) * (self.node_count() as u64) + node;
        n as usize
    }

    pub fn sample_coords(&self, s: usize) -> (r: (u8, u32, u32, u32))
        requires
            self.valid(),
            s < self.num_samples(),
        ensures
            r.0 == self.sample_axis(s as int),
            r.1 == self.sample_i(s as int),
            r.2 == self.sample_j(s as int),
            r.3 == self.sample_k(s as int),
            r.0 < 3,
            self.node_in(r.1 as int, r.2 as int, r.3 as int),
    {
        proof {
            self.lemma_sizes();
            self.lemma_sample_coords(s as int);
        }
        let n: usize = self.node_count();
        let m: usize = s % n;
        let a: usize = self.nx as usize + 1;
        let b: usize = self.ny as usize + 1;
        let row: usize = m / a;
        ((s / n) as u8, (m % a) as u32, (row % b) as u32, (row / b) as u32)
    }

    /// Whether the sample is a face of some cell of the grid.
    pub fn has_face(&self, axis: u8, i: u32, j: u32, k: u32) -> (r: bool)
        ensures
            r == self.face_in(axis as int, i as int, j as int, k as int),
    {
        axis < 3 && (i < self.nx || (axis == 0 && i == self.nx)) && (j < self.ny || (axis == 1 && j
            == self.ny)) && (k < self.nz || (axis == 2 && k == self.nz))
    }
}

/// 1 if the two axes are the same, else 0.
pub open spec fn unit(axis: int, a: int) -> int {
    if axis == a {
        1
    } else {
        0
    }
}

/// Whether the point lies strictly inside the grid, at least one unit of
/// resolution from every wall.
pub open spec fn inside(dims: GridDims, p: Vec3) -> bool {
    &&& 1 <= p.x <= dims.nx * ONE - 1
    &&& 1 <= p.y <= dims.ny * ONE - 1
    &&& 1 <= p.z <= dims.nz * ONE - 1
}

/// Whether every particle lies strictly inside the grid.
pub open spec fn all_inside(dims: GridDims, particles: Seq<Particle>) -> bool {
    forall|q: int| 0 <= q < particles.len() ==> inside(dims, (#[trigger] particles[q]).position)
}

/// The marker of cell `(i, j, k)`: everything outside the grid is solid.
pub open spec fn marker_at(dims: GridDims, markers: Seq<Marker>, i: int, j: int, k: int) -> Marker {
    if dims.cell_in(i, j, k) {
        markers[dims.cell_index(i, j, k)]
    } else {
        Marker::Solid
    }
}

/// Reads the marker of a cell; outside the grid it is solid.
pub fn marker_of(dims: &GridDims, markers: &Vec<Marker>, i: i64, j: i64, k: i64) -> (r: Marker)
    requires
        dims.valid(),
        markers@.len() == dims.num_cells(),
    ensures
        r == marker_at(*dims, markers@, i as int, j as int, k as int),
{
    if 0 <= i && i < dims.nx as i64 && 0 <= j && j < dims.ny as i64 && 0 <= k && k < dims.nz as i64 {
        markers[dims.cell_number(i as u32, j as u32, k as u32)]
    } else {
        Marker::Solid
    }
}

/// The cell along one axis that holds coordinate `p`; what lies outside
/// counts to the nearest cell.
pub open spec fn cell_along(p: int, n: int) -> int {
    if p < 0 {
        0
    } else if p / (ONE as int) >= n {
        n - 1
    } else {
        p / (ONE as int)
    }
}

/// Number of the cell that holds the particle.
pub open spec fn particle_cell(dims: GridDims, p: Particle) -> int {
    dims.cell_index(
        cell_along(p.position.x as int, dims.nx as int),
        cell_along(p.position.y as int, dims.ny as int),
        cell_along(p.position.z as int, dims.nz as int),
    )
}

/// Whether one of the first `upto` particles lies in cell `m`.
pub open spec fn occupied(dims: GridDims, particles: Seq<Particle>, upto: int, m: int) -> bool {
    exists|q: int| 0 <= q < upto && #[trigger] particle_cell(dims, particles[q]) == m
}

/// What the marker field is for the given particles: a cell that holds a
/// particle is fluid, every other cell of the grid is air.
pub open spec fn classified(dims: GridDims, particles: Seq<Particle>) -> Seq<Marker> {
    Seq::new(
        dims.num_cells() as nat,
        |m: int|
            if occupied(dims, particles, particles.len() as int, m) {
                Marker::Fluid
            } else {
                Marker::Air
            },
    )
}

fn cell_along_of(p: i64, n: u32) -> (r: u32)
    requires
        1 <= n <= MAX_DIM,
    ensures
        r == cell_along(p as int, n as int),
        r < n,
{
    if p < 0 {
        0
    } else {
        let c: i64 = p / ONE;
        if c >= n as i64 {
            n - 1
        } else {
            c as u32
        }
    }
}

/// Number of the cell that holds the particle.
pub fn cell_of_particle(dims: &GridDims, p: &Particle) -> (r: usize)
    requires
        dims.valid(),
    ensures
        r == particle_cell(*dims, *p),
        r < dims.num_cells(),
{
    let i: u32 = cell_along_of(p.position.x, dims.nx);
    let j: u32 = cell_along_of(p.position.y, dims.ny);
    let k: u32 = cell_along_of(p.position.z, dims.nz);
    dims.cell_number(i, j, k)
}

/// Recomputes the marker field from where the particles are.
pub fn classify(dims: &GridDims, particles: &Vec<Particle>) -> (markers: Vec<Marker>)
    requires
        dims.valid(),
    ensures
        markers@ == classified(*dims, particles@),
{
    let n: usize = dims.cell_count();
    let mut markers: Vec<Marker> = Vec::new();
    let mut m: usize = 0;
    while m < n
        invariant
            m <= n,
            markers@.len() == m,
            forall|c: int| 0 <= c < m ==> markers@[c] == Marker::Air,
        decreases n - m,
    {
        markers.push(Marker::Air);
        m += 1;
    }
    let mut q: usize = 0;
    while q < particles.len()
        invariant
            dims.valid(),
            q <= particles@.len(),
            markers@.len() == n,
            n == dims.num_cells(),
            forall|c: int|
                0 <= c < n ==> markers@[c] == if occupied(*dims, particles@, q as int, c) {
                    Marker::Fluid
                } else {
                    Marker::Air
                },
        decreases particles@.len() - q,
    {
        let c: usize = cell_of_particle(dims, &particles[q]);
        markers.set(c, Marker::Fluid);
        proof {
            let cells = particle_cell(*dims, particles@[q as int]);
            assert forall|d: int| 0 <= d < n implies markers@[d] == if occupied(
                *dims,
                particles@,
                q + 1,
                d,
            ) {
                Marker::Fluid
            } else {
                Marker::Air
            } by {
                if d == c {
                    assert(particle_cell(*dims, particles@[q as int]) == d);
                } else {
                    if occupied(*dims, particles@, q + 1, d) {
                        let w = choose|w: int|
                            0 <= w < q + 1 && #[trigger] particle_cell(*dims, particles@[w]) == d;
                        assert(w < q);
                    }
                }
            }
        }
        q += 1;
    }
    assert(markers@ =~= classified(*dims, particles@));
    markers
}

} // verus!
