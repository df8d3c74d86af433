//! The triangles of the index buffer: which samples they join, which way
//! they turn, and where the triangles of a cell stand in the buffer.

use vstd::prelude::*;
use crate::grid::{coordinates_at, grid_samples, lemma_vertex_index_of_coordinates, vertex_count};
use crate::stitch::{
    band_indices, bands_indices, bottom_left, cell_indices, grid_indices, lemma_band_indices_len,
    lemma_bands_indices_len, lower_triangle, top_left, triangles_per_cell, triangles_per_column,
    upper_triangle,
};

verus! {

/// The four corners of a cell are the samples in its two rows and its two
/// columns: `k1` and `k1 + 1` in row `band`, `k2` and `k2 + 1` below them
/// in row `band + 1`.
pub proof fn lemma_cell_corners(sectors: nat, stacks: nat, band: int, cell: int)
    requires
        0 <= band < stacks,
        0 <= cell < sectors,
    ensures
        ({
            let k1 = top_left(sectors, band, cell);
            let k2 = bottom_left(sectors, band, cell);
            let samples = grid_samples(sectors, stacks);
            &&& 0 <= k1 && k2 + 1 < vertex_count(sectors, stacks)
            &&& samples[k1] == (band, cell)
            &&& samples[k1 + 1] == (band, cell + 1)
            &&& samples[k2] == (band + 1, cell)
            &&& samples[k2 + 1] == (band + 1, cell + 1)
        }),
{
    let row = sectors as int + 1;
    assert((band + 1) * row == band * row + row) by (nonlinear_arith);
    lemma_vertex_index_of_coordinates(sectors, stacks, band, cell);
    lemma_vertex_index_of_coordinates(sectors, stacks, band, cell + 1);
    lemma_vertex_index_of_coordinates(sectors, stacks, band + 1, cell);
    lemma_vertex_index_of_coordinates(sectors, stacks, band + 1, cell + 1);
}

/// Twice the signed area of the triangle `(a, b, c)` in the parameter plane,
/// in which a sample lies at (column, row). The sign tells the winding.
pub open spec fn parameter_area(sectors: nat, a: int, b: int, c: int) -> int {
    let (row_a, col_a) = coordinates_at(sectors, a);
    let (row_b, col_b) = coordinates_at(sectors, b);
    let (row_c, col_c) = coordinates_at(sectors, c);
    (col_b - col_a) * (row_c - row_a) - (col_c - col_a) * (row_b - row_a)
}

/// A triangle with two equal corners has no area.
pub proof fn lemma_flat_triangle_has_no_area(sectors: nat, a: int, b: int, c: int)
    requires
        a == b || b == c || a == c,
    ensures
        parameter_area(sectors, a, b, c) == 0,
{
    let (row_a, col_a) = coordinates_at(sectors, a);
    let (row_b, col_b) = coordinates_at(sectors, b);
    let (row_c, col_c) = coordinates_at(sectors, c);
    assert((col_b - col_a) * (row_c - row_a) - (col_c - col_a) * (row_b - row_a) == 0)
        by (nonlinear_arith)
        requires
            (row_a == row_b && col_a == col_b) || (row_b == row_c && col_b == col_c) || (row_a
                == row_c && col_a == col_c),
    ;
}

/// The triangle that begins at position `3 * t` of an index buffer has the
/// common winding: it covers half a cell, and its corners turn the same
/// way as those of every other triangle.
pub open spec fn is_wound(sectors: nat, indices: Seq<int>, t: int) -> bool {
    parameter_area(sectors, indices[3 * t], indices[3 * t + 1], indices[3 * t + 2]) == -1
}

/// Both triangles of a cell have the common winding.
pub proof fn lemma_cell_winding(sectors: nat, stacks: nat, band: int, cell: int)
    requires
        0 <= band < stacks,
        0 <= cell < sectors,
    ensures
        is_wound(sectors, upper_triangle(sectors, band, cell), 0),
        is_wound(sectors, lower_triangle(sectors, band, cell), 0),
        forall|t: int|
            0 <= t && 3 * t + 2 < cell_indices(sectors, stacks, band, cell).len() ==> is_wound(
                sectors,
                cell_indices(sectors, stacks, band, cell),
                t,
            ),
{
    lemma_cell_corners(sectors, stacks, band, cell);
    let k1 = top_left(sectors, band, cell);
    let k2 = bottom_left(sectors, band, cell);
    assert(coordinates_at(sectors, k1) == (band, cell));
    assert(coordinates_at(sectors, k1 + 1) == (band, cell + 1));
    assert(coordinates_at(sectors, k2) == (band + 1, cell));
    assert(coordinates_at(sectors, k2 + 1) == (band + 1, cell + 1));
    let upper = upper_triangle(sectors, band, cell);
    let lower = lower_triangle(sectors, band, cell);
    assert(is_wound(sectors, upper, 0)) by {
        let (row_a, col_a) = coordinates_at(sectors, upper[0]);
        let (row_b, col_b) = coordinates_at(sectors, upper[1]);
        let (row_c, col_c) = coordinates_at(sectors, upper[2]);
        assert((col_b - col_a) * (row_c - row_a) - (col_c - col_a) * (row_b - row_a) == -1)
            by (nonlinear_arith)
            requires
                col_b - col_a == 0,
                row_c - row_a == 0,
                col_c - col_a == 1,
                row_b - row_a == 1,
        ;
    }
    assert(is_wound(sectors, lower, 0)) by {
        let (row_a, col_a) = coordinates_at(sectors, lower[0]);
        let (row_b, col_b) = coordinates_at(sectors, lower[1]);
        let (row_c, col_c) = coordinates_at(sectors, lower[2]);
        assert((col_b - col_a) * (row_c - row_a) - (col_c - col_a) * (row_b - row_a) == -1)
            by (nonlinear_arith)
            requires
                col_b - col_a == -1,
                row_c - row_a == 1,
                col_c - col_a == 0,
                row_b - row_a == 1,
        ;
    }
    let both = cell_indices(sectors, stacks, band, cell);
    assert forall|t: int| 0 <= t && 3 * t + 2 < both.len() implies is_wound(sectors, both, t) by {
        if band != 0 && t == 0 {
            assert(both[0] == upper[0] && both[1] == upper[1] && both[2] == upper[2]);
        } else if band != 0 {
            assert(t == 1);
            assert(both[3] == lower[0] && both[4] == lower[1] && both[5] == lower[2]);
        } else {
            assert(t == 0);
            assert(both[0] == lower[0] && both[1] == lower[1] && both[2] == lower[2]);
        }
    }
}

/// Every triangle of a band prefix has the common winding.
pub proof fn lemma_band_winding(sectors: nat, stacks: nat, band: int, cells: nat, t: int)
    requires
        0 <= band < stacks,
        cells <= sectors,
        0 <= t,
        3 * t + 2 < band_indices(sectors, stacks, band, cells).len(),
    ensures
        is_wound(sectors, band_indices(sectors, stacks, band, cells), t),
    decreases cells,
{
    let before = band_indices(sectors, stacks, band, (cells - 1) as nat);
    let last = cell_indices(sectors, stacks, band, cells - 1);
    let all = band_indices(sectors, stacks, band, cells);
    assert(all == before + last);
    if 3 * t + 2 < before.len() {
        lemma_band_winding(sectors, stacks, band, (cells - 1) as nat, t);
    } else {
        lemma_band_indices_len(sectors, stacks, band, (cells - 1) as nat);
        let triangles = triangles_per_cell(stacks, band) * (cells - 1);
        assert(before.len() == 3 * triangles) by (nonlinear_arith)
            requires
                before.len() == 3 * triangles_per_cell(stacks, band) * (cells - 1),
                triangles == triangles_per_cell(stacks, band) * (cells - 1),
        ;
        let m = t - triangles;
        lemma_cell_winding(sectors, stacks, band, cells - 1);
        assert(is_wound(sectors, last, m));
        assert(all[3 * t] == last[3 * m] && all[3 * t + 1] == last[3 * m + 1] && all[3 * t + 2]
            == last[3 * m + 2]);
    }
}

/// Every triangle of a prefix of bands has the common winding.
pub proof fn lemma_bands_winding(sectors: nat, stacks: nat, bands: nat, t: int)
    requires
        bands <= stacks,
        0 <= t,
        3 * t + 2 < bands_indices(sectors, stacks, bands).len(),
    ensures
        is_wound(sectors, bands_indices(sectors, stacks, bands), t),
    decreases bands,
{
    let before = bands_indices(sectors, stacks, (bands - 1) as nat);
    let last = band_indices(sectors, stacks, bands - 1, sectors);
    let all = bands_indices(sectors, stacks, bands);
    assert(all == before + last);
    if 3 * t + 2 < before.len() {
        lemma_bands_winding(sectors, stacks, (bands - 1) as nat, t);
    } else {
        lemma_bands_indices_len(sectors, stacks, (bands - 1) as nat);
        let triangles = triangles_per_column(stacks, (bands - 1) as nat) * sectors;
        assert(before.len() == 3 * triangles) by (nonlinear_arith)
            requires
                before.len() == 3 * triangles_per_column(stacks, (bands - 1) as nat) * sectors,
                triangles == triangles_per_column(stacks, (bands - 1) as nat) * sectors,
        ;
        let m = t - triangles;
        lemma_band_winding(sectors, stacks, bands - 1, sectors, m);
        assert(all[3 * t] == last[3 * m] && all[3 * t + 1] == last[3 * m + 1] && all[3 * t + 2]
            == last[3 * m + 2]);
    }
}

/// The winding is consistent: every triangle of the index buffer covers
/// half a cell of the parameter plane and turns the same way. Its three
/// corners are therefore three different vertices.
pub proof fn lemma_winding_is_consistent(sectors: nat, stacks: nat, t: int)
    requires
        0 <= t,
        3 * t + 2 < grid_indices(sectors, stacks).len(),
    ensures
        is_wound(sectors, grid_indices(sectors, stacks), t),
        grid_indices(sectors, stacks)[3 * t] != grid_indices(sectors, stacks)[3 * t + 1],
        grid_indices(sectors, stacks)[3 * t + 1] != grid_indices(sectors, stacks)[3 * t + 2],
        grid_indices(sectors, stacks)[3 * t] != grid_indices(sectors, stacks)[3 * t + 2],
{
    lemma_bands_winding(sectors, stacks, stacks, t);
    let grid = grid_indices(sectors, stacks);
    let (a, b, c) = (grid[3 * t], grid[3 * t + 1], grid[3 * t + 2]);
    if a == b || b == c || a == c {
        lemma_flat_triangle_has_no_area(sectors, a, b, c);
    }
}

/// Position in the index buffer at which the indices of a cell begin: after
/// the triangles of all bands above it and of the cells to its left.
pub open spec fn cell_offset(sectors: nat, stacks: nat, band: int, cell: int) -> int {
    3 * triangles_per_column(stacks, band as nat) * sectors + 3 * triangles_per_cell(
        stacks,
        band,
    ) * cell
}

/// A band prefix begins with every shorter prefix of the same band.
proof fn lemma_band_indices_prefix(sectors: nat, stacks: nat, band: int, cells: nat, all: nat)
    requires
        cells <= all,
    ensures
        band_indices(sectors, stacks, band, cells).len() <= band_indices(
            sectors,
            stacks,
            band,
            all,
        ).len(),
        band_indices(sectors, stacks, band, all).subrange(
            0,
            band_indices(sectors, stacks, band, cells).len() as int,
        ) == band_indices(sectors, stacks, band, cells),
    decreases all,
{
    let short = band_indices(sectors, stacks, band, cells);
    let long = band_indices(sectors, stacks, band, all);
    if cells == all {
        assert(long.subrange(0, short.len() as int) =~= short);
    } else {
        lemma_band_indices_prefix(sectors, stacks, band, cells, (all - 1) as nat);
        let before = band_indices(sectors, stacks, band, (all - 1) as nat);
        assert(long.subrange(0, short.len() as int) =~= before.subrange(0, short.len() as int));
    }
}

/// A prefix of bands begins with every shorter prefix of bands.
proof fn lemma_bands_indices_prefix(sectors: nat, stacks: nat, bands: nat, all: nat)
    requires
        bands <= all,
    ensures
        bands_indices(sectors, stacks, bands).len() <= bands_indices(sectors, stacks, all).len(),
        bands_indices(sectors, stacks, all).subrange(
            0,
            bands_indices(sectors, stacks, bands).len() as int,
        ) == bands_indices(sectors, stacks, bands),
    decreases all,
{
    let short = bands_indices(sectors, stacks, bands);
    let long = bands_indices(sectors, stacks, all);
    if bands == all {
        assert(long.subrange(0, short.len() as int) =~= short);
    } else {
        lemma_bands_indices_prefix(sectors, stacks, bands, (all - 1) as nat);
        let before = bands_indices(sectors, stacks, (all - 1) as nat);
        assert(long.subrange(0, short.len() as int) =~= before.subrange(0, short.len() as int));
    }
}

/// Where a cell lies in the index buffer: its indices stand together,
/// beginning at `cell_offset`.
pub proof fn lemma_cell_in_grid_indices(sectors: nat, stacks: nat, band: int, cell: int)
    requires
        0 <= band < stacks,
        0 <= cell < sectors,
    ensures
        ({
            let start = cell_offset(sectors, stacks, band, cell);
            let end = start + cell_indices(sectors, stacks, band, cell).len();
            &&& 0 <= start <= end <= grid_indices(sectors, stacks).len()
            &&& grid_indices(sectors, stacks).subrange(start, end) == cell_indices(
                sectors,
                stacks,
                band,
                cell,
            )
        }),
{
    let this_cell = cell_indices(sectors, stacks, band, cell);
    let left = band_indices(sectors, stacks, band, cell as nat);
    let through_cell = band_indices(sectors, stacks, band, (cell + 1) as nat);
    let this_band = band_indices(sectors, stacks, band, sectors);
    let above = bands_indices(sectors, stacks, band as nat);
    let through_band = bands_indices(sectors, stacks, (band + 1) as nat);
    let grid = grid_indices(sectors, stacks);
    let start = cell_offset(sectors, stacks, band, cell);
    let end = start + this_cell.len();

    lemma_bands_indices_len(sectors, stacks, band as nat);
    lemma_band_indices_len(sectors, stacks, band, cell as nat);
    assert(start == above.len() + left.len());
    assert(through_cell == left + this_cell);
    assert(through_band == above + this_band);
    lemma_band_indices_prefix(sectors, stacks, band, (cell + 1) as nat, sectors);
    lemma_bands_indices_prefix(sectors, stacks, (band + 1) as nat, stacks);

    assert forall|m: int| 0 <= m < this_cell.len() implies grid[start + m] == this_cell[m] by {
        assert(through_cell[left.len() + m] == this_cell[m]);
        assert(this_band.subrange(0, through_cell.len() as int)[left.len() + m]
            == this_band[left.len() + m]);
        assert(through_band[start + m] == this_band[left.len() + m]);
        assert(grid.subrange(0, through_band.len() as int)[start + m] == grid[start + m]);
    }
    assert(grid.subrange(start, end) =~= this_cell);
}

} // verus!
