//! Stitching the sample grid into a triangle list.
//!
//! The `stacks + 1` rows of the grid bound `stacks` bands of `sectors` quad
//! cells each. A cell with corners
//!
//! ```text
//!  k1--k1+1
//!  |  / |
//!  | /  |
//!  k2--k2+1
//! ```
//!
//! gives the triangle `(k1, k2, k1+1)` unless it lies in the topmost band,
//! and the triangle `(k1+1, k2, k2+1)` unless it lies in the bottommost
//! band: at a pole the other triangle would have no area.

use vstd::prelude::*;
use crate::grid::{lemma_vertex_count_bounds, vertex_count, vertex_index};

verus! {

/// Index of the top left corner of the cell in band `band`, column `cell`.
pub open spec fn top_left(sectors: nat, band: int, cell: int) -> int {
    vertex_index(sectors, band, cell)
}

/// Index of the bottom left corner of a cell: the sample one row below its
/// top left corner.
pub open spec fn bottom_left(sectors: nat, band: int, cell: int) -> int {
    top_left(sectors, band, cell) + sectors + 1
}

/// The triangle of a cell that touches its top edge.
pub open spec fn upper_triangle(sectors: nat, band: int, cell: int) -> Seq<int> {
    let k1 = top_left(sectors, band, cell);
    let k2 = bottom_left(sectors, band, cell);
    seq![k1, k2, k1 + 1]
}

/// The triangle of a cell that touches its bottom edge.
pub open spec fn lower_triangle(sectors: nat, band: int, cell: int) -> Seq<int> {
    let k1 = top_left(sectors, band, cell);
    let k2 = bottom_left(sectors, band, cell);
    seq![k1 + 1, k2, k2 + 1]
}

/// The indices that one cell contributes: its upper triangle unless the
/// band is the first, then its lower triangle unless the band is the last.
pub open spec fn cell_indices(sectors: nat, stacks: nat, band: int, cell: int) -> Seq<int> {
    let upper = if band != 0 {
        upper_triangle(sectors, band, cell)
    } else {
        Seq::empty()
    };
    let lower = if band != stacks - 1 {
        lower_triangle(sectors, band, cell)
    } else {
        Seq::empty()
    };
    upper + lower
}

/// The indices of the first `cells` cells of a band, in column order.
pub open spec fn band_indices(sectors: nat, stacks: nat, band: int, cells: nat) -> Seq<int>
    decreases cells,
{
    if cells == 0 {
        Seq::empty()
    } else {
        band_indices(sectors, stacks, band, (cells - 1) as nat) + cell_indices(
            sectors,
            stacks,
            band,
            cells - 1,
        )
    }
}

/// The indices of the first `bands` bands, from the north pole down.
pub open spec fn bands_indices(sectors: nat, stacks: nat, bands: nat) -> Seq<int>
    decreases bands,
{
    if bands == 0 {
        Seq::empty()
    } else {
        bands_indices(sectors, stacks, (bands - 1) as nat) + band_indices(
            sectors,
            stacks,
            bands - 1,
            sectors,
        )
    }
}

/// The index buffer of the grid: all bands, every cell of each.
pub open spec fn grid_indices(sectors: nat, stacks: nat) -> Seq<int> {
    bands_indices(sectors, stacks, stacks)
}

/// The numbers held by a buffer of 32-bit indices.
pub open spec fn index_values(indices: Seq<u32>) -> Seq<int> {
    indices.map_values(|v: u32| v as int)
}

/// Builds the index buffer of the grid: band by band from the north pole,
/// within a band column by column, the upper triangle of a cell before the
/// lower one, each triangle in the vertex order given above.
pub fn stitch_indices(sectors: usize, stacks: usize) -> (indices: Vec<u32>)
    requires
        vertex_count(sectors as nat, stacks as nat) <= u32::MAX,
    ensures
        index_values(indices@) == grid_indices(sectors as nat, stacks as nat),
{
    proof {
        lemma_vertex_count_bounds(sectors as nat, stacks as nat);
    }
    let ghost row = sectors as int + 1;
    let mut indices: Vec<u32> = Vec::new();
    let mut i: usize = 0;
    while i < stacks
        invariant
            row == sectors + 1,
            (stacks + 1) * row <= u32::MAX,
            0 <= i <= stacks,
            index_values(indices@) == bands_indices(sectors as nat, stacks as nat, i as nat),
        decreases stacks - i,
    {
        assert(0 <= i * row && (i + 1) * row + row <= (stacks + 1) * row && (i + 1) * row == i
            * row + row) by (nonlinear_arith)
            requires
                0 <= i < stacks,
                row > 0,
        ;
        let mut k1: usize = i * (sectors + 1);
        let mut k2: usize = k1 + sectors + 1;
        let ghost done = index_values(indices@);
        let mut j: usize = 0;
        while j < sectors
            invariant
                row == sectors + 1,
                (stacks + 1) * row <= u32::MAX,
                (i + 1) * row + row <= (stacks + 1) * row,
                (i + 1) * row == i * row + row,
                0 <= i < stacks,
                0 <= j <= sectors,
                k1 == top_left(sectors as nat, i as int, j as int),
                k2 == bottom_left(sectors as nat, i as int, j as int),
                index_values(indices@) == done + band_indices(
                    sectors as nat,
                    stacks as nat,
                    i as int,
                    j as nat,
                ),
            decreases sectors - j,
        {
            let ghost before = index_values(indices@);
            if i != 0 {
                indices.push(k1 as u32);
                indices.push(k2 as u32);
                indices.push((k1 + 1) as u32);
            }
            let ghost middle = index_values(indices@);
            assert(middle =~= before + (if i != 0 {
                upper_triangle(sectors as nat, i as int, j as int)
            } else {
                Seq::empty()
            }));
            if i != stacks - 1 {
                indices.push((k1 + 1) as u32);
                indices.push(k2 as u32);
                indices.push((k2 + 1) as u32);
            }
            assert(index_values(indices@) =~= middle + (if i != stacks - 1 {
                lower_triangle(sectors as nat, i as int, j as int)
            } else {
                Seq::empty()
            }));
            assert(index_values(indices@) =~= done + band_indices(
                sectors as nat,
                stacks as nat,
                i as int,
                (j + 1) as nat,
            ));
            k1 += 1;
            k2 += 1;
            j += 1;
        }
        i += 1;
    }
    indices
}

/// Number of triangles that each cell of a band contributes.
pub open spec fn triangles_per_cell(stacks: nat, band: int) -> nat {
    if band != 0 && band != stacks - 1 {
        2
    } else if band != 0 || band != stacks - 1 {
        1
    } else {
        0
    }
}

/// A band prefix holds three indices for each triangle of each of its cells.
pub proof fn lemma_band_indices_len(sectors: nat, stacks: nat, band: int, cells: nat)
    ensures
        band_indices(sectors, stacks, band, cells).len() == 3 * triangles_per_cell(stacks, band)
            * cells,
    decreases cells,
{
    let t = triangles_per_cell(stacks, band);
    if cells == 0 {
        assert(3 * t * 0 == 0) by (nonlinear_arith);
    } else {
        lemma_band_indices_len(sectors, stacks, band, (cells - 1) as nat);
        assert(3 * t * (cells - 1) + 3 * t == 3 * t * cells) by (nonlinear_arith);
    }
}

/// Every index of a band prefix names a sample of the grid.
pub proof fn lemma_band_indices_in_range(
    sectors: nat,
    stacks: nat,
    band: int,
    cells: nat,
    k: int,
)
    requires
        0 <= band < stacks,
        cells <= sectors,
        0 <= k < band_indices(sectors, stacks, band, cells).len(),
    ensures
        0 <= band_indices(sectors, stacks, band, cells)[k] < vertex_count(sectors, stacks),
    decreases cells,
{
    let before = band_indices(sectors, stacks, band, (cells - 1) as nat);
    if k < before.len() {
        lemma_band_indices_in_range(sectors, stacks, band, (cells - 1) as nat, k);
    } else {
        let row = sectors + 1;
        assert(0 <= band * row && (band + 1) * row + row <= (stacks + 1) * row && (band + 1)
            * row == band * row + row) by (nonlinear_arith)
            requires
                0 <= band < stacks,
                row > 0,
        ;
    }
}

/// Number of triangles per column in the first `bands` bands together: one
/// for each polar band, two for each band between them.
pub open spec fn triangles_per_column(stacks: nat, bands: nat) -> int {
    if bands == 0 {
        0
    } else if bands < stacks {
        2 * bands - 1
    } else {
        2 * stacks - 2
    }
}

/// A prefix of bands holds three indices for each triangle of each column.
pub proof fn lemma_bands_indices_len(sectors: nat, stacks: nat, bands: nat)
    requires
        bands <= stacks,
    ensures
        bands_indices(sectors, stacks, bands).len() == 3 * triangles_per_column(stacks, bands)
            * sectors,
    decreases bands,
{
    if bands == 0 {
        assert(3 * 0 * sectors == 0) by (nonlinear_arith);
    } else {
        let before = (bands - 1) as nat;
        lemma_bands_indices_len(sectors, stacks, before);
        lemma_band_indices_len(sectors, stacks, bands - 1, sectors);
        let p = triangles_per_column(stacks, before);
        let t = triangles_per_cell(stacks, bands - 1);
        assert(p + t == triangles_per_column(stacks, bands));
        assert(3 * p * sectors + 3 * t * sectors == 3 * (p + t) * sectors) by (nonlinear_arith);
    }
}

/// Every index of a prefix of bands names a sample of the grid.
pub proof fn lemma_bands_indices_in_range(sectors: nat, stacks: nat, bands: nat, k: int)
    requires
        bands <= stacks,
        0 <= k < bands_indices(sectors, stacks, bands).len(),
    ensures
        0 <= bands_indices(sectors, stacks, bands)[k] < vertex_count(sectors, stacks),
    decreases bands,
{
    let before = bands_indices(sectors, stacks, (bands - 1) as nat);
    if k < before.len() {
        lemma_bands_indices_in_range(sectors, stacks, (bands - 1) as nat, k);
    } else {
        lemma_band_indices_in_range(sectors, stacks, bands - 1, sectors, k - before.len());
    }
}

/// Size of the index buffer. The two polar bands give one triangle per
/// cell and the `stacks - 2` bands between them give two. A grid of fewer
/// than two stacks has no triangles: a single band touches both poles.
pub open spec fn index_count(sectors: nat, stacks: nat) -> int {
    if stacks >= 2 {
        3 * (2 * (stacks - 2) + 2) * sectors
    } else {
        0
    }
}

/// The index buffer has `index_count` entries, three for each triangle.
pub proof fn lemma_grid_indices_len(sectors: nat, stacks: nat)
    ensures
        grid_indices(sectors, stacks).len() == index_count(sectors, stacks),
        grid_indices(sectors, stacks).len() % 3 == 0,
{
    lemma_bands_indices_len(sectors, stacks, stacks);
    let t = triangles_per_column(stacks, stacks);
    assert(stacks <= 1 ==> 3 * t * sectors == 0) by (nonlinear_arith)
        requires
            stacks <= 1 ==> t == 0,
    ;
    let triangles = t * sectors;
    assert(3 * t * sectors == 3 * triangles) by (nonlinear_arith)
        requires
            triangles == t * sectors,
    ;
}

/// Every entry of the index buffer is the position of a sample in the
/// vertex buffer.
pub proof fn lemma_grid_indices_in_range(sectors: nat, stacks: nat, k: int)
    requires
        0 <= k < grid_indices(sectors, stacks).len(),
    ensures
        0 <= grid_indices(sectors, stacks)[k] < vertex_count(sectors, stacks),
{
    lemma_bands_indices_in_range(sectors, stacks, stacks, k);
}

} // verus!
