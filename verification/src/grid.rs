//! The latitude/longitude sample grid.
//!
//! A grid of `stacks` latitudinal and `sectors` longitudinal divisions has
//! `stacks + 1` rows of `sectors + 1` samples. Rows run from pole to pole;
//! within a row the last column repeats the longitude of the first, so that
//! texture coordinates do not wrap. Samples are numbered row by row.

use vstd::prelude::*;
use vstd::arithmetic::div_mod::lemma_fundamental_div_mod_converse;

verus! {

/// One sample of the grid: its row (stack index) and column (sector index).
#[derive(Clone, Copy, Debug, PartialEq, Eq, Structural)]
pub struct GridSample {
    /// Row of the sample, `0` at the north pole.
    pub stack: usize,
    /// Column of the sample, `0` at longitude zero.
    pub sector: usize,
}

/// Number of samples in the grid.
pub open spec fn vertex_count(sectors: nat, stacks: nat) -> nat {
    ((stacks as int + 1) * (sectors as int + 1)) as nat
}

/// Position in the vertex buffer of the sample in row `stack`, column
/// `sector`.
pub open spec fn vertex_index(sectors: nat, stack: int, sector: int) -> int {
    stack * (sectors as int + 1) + sector
}

/// Row and column of the sample at position `k` of the vertex buffer.
pub open spec fn coordinates_at(sectors: nat, k: int) -> (int, int) {
    (k / (sectors as int + 1), k % (sectors as int + 1))
}

/// The vertex buffer as a sequence of (row, column) pairs.
pub open spec fn grid_samples(sectors: nat, stacks: nat) -> Seq<(int, int)> {
    Seq::new(vertex_count(sectors, stacks), |k: int| coordinates_at(sectors, k))
}

/// The (row, column) pairs of a list of samples.
pub open spec fn coordinates(samples: Seq<GridSample>) -> Seq<(int, int)> {
    samples.map_values(|s: GridSample| (s.stack as int, s.sector as int))
}

/// Horizontal texture coordinate of a column: the fraction of the full
/// revolution at which it lies.
pub open spec fn texture_u(sectors: nat, sector: int) -> real {
    sector as real / sectors as real
}

/// Vertical texture coordinate of a row: the fraction of the way from the
/// north pole to the south pole at which it lies.
pub open spec fn texture_v(stacks: nat, stack: int) -> real {
    stack as real / stacks as real
}

/// The grid has at least as many samples as it has rows, and as it has
/// columns.
pub proof fn lemma_vertex_count_bounds(sectors: nat, stacks: nat)
    ensures
        vertex_count(sectors, stacks) >= stacks + 1,
        vertex_count(sectors, stacks) >= sectors + 1,
{
    assert((stacks + 1) * (sectors + 1) >= stacks + 1 && (stacks + 1) * (sectors + 1) >= sectors
        + 1) by (nonlinear_arith);
}

/// The sample in row `stack` and column `sector` lies in the vertex buffer
/// at `vertex_index(sectors, stack, sector)`.
pub proof fn lemma_vertex_index_of_coordinates(sectors: nat, stacks: nat, stack: int, sector: int)
    requires
        0 <= stack <= stacks,
        0 <= sector <= sectors,
    ensures
        0 <= vertex_index(sectors, stack, sector) < vertex_count(sectors, stacks),
        coordinates_at(sectors, vertex_index(sectors, stack, sector)) == (stack, sector),
        grid_samples(sectors, stacks)[vertex_index(sectors, stack, sector)] == (stack, sector),
{
    let row = (sectors + 1) as int;
    let k = vertex_index(sectors, stack, sector);
    assert(0 <= stack * row && stack * row + row <= (stacks + 1) * row) by (nonlinear_arith)
        requires
            0 <= stack <= stacks,
            row > 0,
    ;
    lemma_fundamental_div_mod_converse(k, row, stack, sector);
}

/// Every position of the vertex buffer holds a sample of the grid, and
/// numbering that sample gives the position back: no sample lies at two
/// positions.
pub proof fn lemma_coordinates_of_vertex_index(sectors: nat, stacks: nat, k: int)
    requires
        0 <= k < vertex_count(sectors, stacks),
    ensures
        0 <= coordinates_at(sectors, k).0 <= stacks,
        0 <= coordinates_at(sectors, k).1 <= sectors,
        vertex_index(sectors, coordinates_at(sectors, k).0, coordinates_at(sectors, k).1) == k,
{
    let row = (sectors + 1) as int;
    assert(k == row * (k / row) + k % row && 0 <= k % row < row && 0 <= k / row && (k / row
        <= stacks)) by (nonlinear_arith)
        requires
            row > 0,
            0 <= k < (stacks + 1) * row,
    ;
    assert(row * (k / row) == (k / row) * row) by (nonlinear_arith);
}

/// The seam: in every row the first and the last column are two different
/// entries of the vertex buffer, `sectors` positions apart, that agree in
/// the vertical texture coordinate and differ in the horizontal one, which
/// is 0 in the first column and 1 in the last.
pub proof fn lemma_seam_columns(sectors: nat, stacks: nat, stack: int)
    requires
        sectors >= 1,
        0 <= stack <= stacks,
    ensures
        ({
            let first = vertex_index(sectors, stack, 0);
            let last = vertex_index(sectors, stack, sectors as int);
            let samples = grid_samples(sectors, stacks);
            &&& 0 <= first < last < vertex_count(sectors, stacks)
            &&& last == first + sectors
            &&& samples[first] == (stack, 0int)
            &&& samples[last] == (stack, sectors as int)
            &&& texture_u(sectors, samples[first].1) == 0 as real
            &&& texture_u(sectors, samples[last].1) == 1 as real
            &&& texture_v(stacks, samples[first].0) == texture_v(stacks, samples[last].0)
        }),
{
    lemma_vertex_index_of_coordinates(sectors, stacks, stack, 0);
    lemma_vertex_index_of_coordinates(sectors, stacks, stack, sectors as int);
    let n = sectors as real;
    assert(0 as real / n == 0 as real && n / n == 1 as real) by (nonlinear_arith)
        requires
            n >= 1 as real,
    ;
}

/// Both texture coordinates of every sample of the grid lie between 0 and 1.
pub proof fn lemma_texture_coordinates_in_unit_square(sectors: nat, stacks: nat, k: int)
    requires
        sectors >= 1,
        stacks >= 1,
        0 <= k < vertex_count(sectors, stacks),
    ensures
        0 as real <= texture_u(sectors, grid_samples(sectors, stacks)[k].1) <= 1 as real,
        0 as real <= texture_v(stacks, grid_samples(sectors, stacks)[k].0) <= 1 as real,
{
    lemma_coordinates_of_vertex_index(sectors, stacks, k);
    let (i, j) = coordinates_at(sectors, k);
    let (x, n) = (j as real, sectors as real);
    assert(0 as real <= x / n <= 1 as real) by (nonlinear_arith)
        requires
            0 as real <= x <= n,
            n >= 1 as real,
    ;
    let (y, m) = (i as real, stacks as real);
    assert(0 as real <= y / m <= 1 as real) by (nonlinear_arith)
        requires
            0 as real <= y <= m,
            m >= 1 as real,
    ;
}

/// Lists the samples of the grid in vertex-buffer order: row by row from the
/// north pole, each row from column `0` to column `sectors`.
pub fn sample_grid(sectors: usize, stacks: usize) -> (samples: Vec<GridSample>)
    requires
        vertex_count(sectors as nat, stacks as nat) <= usize::MAX,
    ensures
        coordinates(samples@) == grid_samples(sectors as nat, stacks as nat),
{
    proof {
        lemma_vertex_count_bounds(sectors as nat, stacks as nat);
    }
    let ghost row = sectors as int + 1;
    let mut samples: Vec<GridSample> = Vec::new();
    let mut i: usize = 0;
    while i <= stacks
        invariant
            row == sectors + 1,
            stacks < usize::MAX,
            sectors < usize::MAX,
            0 <= i <= stacks + 1,
            samples@.len() == i * row,
            forall|k: int|
                0 <= k < samples@.len() ==> (#[trigger] samples@[k]).stack == k / row
                    && samples@[k].sector == k % row,
        decreases stacks + 1 - i,
    {
        let mut j: usize = 0;
        while j <= sectors
            invariant
                row == sectors + 1,
                sectors < usize::MAX,
                0 <= i <= stacks,
                0 <= j <= sectors + 1,
                samples@.len() == i * row + j,
                forall|k: int|
                    0 <= k < samples@.len() ==> (#[trigger] samples@[k]).stack == k / row
                        && samples@[k].sector == k % row,
            decreases sectors + 1 - j,
        {
            proof {
                lemma_fundamental_div_mod_converse(i * row + j, row, i as int, j as int);
            }
            samples.push(GridSample { stack: i, sector: j });
            j += 1;
        }
        assert(i * row + row == (i + 1) * row) by (nonlinear_arith);
        i += 1;
    }
    assert(coordinates(samples@) =~= grid_samples(sectors as nat, stacks as nat));
    samples
}

} // verus!
