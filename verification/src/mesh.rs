//! The tessellation: validation, then the layout of the mesh.

use vstd::prelude::*;
use crate::grid::{coordinates, grid_samples, sample_grid, vertex_count, GridSample};
use crate::options::EllipsoidOptions;
use crate::shape::EllipsoidShape;
use crate::stitch::{
    grid_indices, index_count, index_values, lemma_grid_indices_in_range,
    lemma_grid_indices_len, stitch_indices,
};

verus! {

/// Why a tessellation was refused.
#[derive(Clone, Copy, Debug, PartialEq, Eq, Structural)]
pub enum TessellationError {
    /// A semi-axis length is not strictly positive.
    InvalidShape,
    /// The number of sectors or the number of stacks is zero.
    InvalidResolution,
}

/// What a mesh layout stands for: a resolution, the (row, column) pair of
/// each vertex, and the index buffer.
pub struct MeshLayoutView {
    /// Number of longitudinal divisions of the grid.
    pub sectors: nat,
    /// Number of latitudinal divisions of the grid.
    pub stacks: nat,
    /// (row, column) of each vertex, in vertex-buffer order.
    pub samples: Seq<(int, int)>,
    /// The triangle list: three positions in `samples` per triangle.
    pub indices: Seq<int>,
}

impl MeshLayoutView {
    /// The buffers have the sizes that the resolution asks for, and every
    /// entry of the index buffer is the position of a vertex.
    pub open spec fn is_consistent(self) -> bool {
        &&& self.samples.len() == vertex_count(self.sectors, self.stacks)
        &&& self.indices.len() == index_count(self.sectors, self.stacks)
        &&& forall|k: int|
            0 <= k < self.indices.len() ==> 0 <= #[trigger] self.indices[k] < self.samples.len()
    }
}

/// The layout of the mesh of a grid: its samples row by row, and its cells
/// stitched into triangles.
pub open spec fn layout_of(sectors: nat, stacks: nat) -> MeshLayoutView {
    MeshLayoutView {
        sectors,
        stacks,
        samples: grid_samples(sectors, stacks),
        indices: grid_indices(sectors, stacks),
    }
}

/// The layout of every grid is consistent.
pub proof fn lemma_layout_is_consistent(sectors: nat, stacks: nat)
    ensures
        layout_of(sectors, stacks).is_consistent(),
{
    let layout = layout_of(sectors, stacks);
    lemma_grid_indices_len(sectors, stacks);
    assert forall|k: int| 0 <= k < layout.indices.len() implies 0 <= #[trigger] layout.indices[k]
        < layout.samples.len() by {
        lemma_grid_indices_in_range(sectors, stacks, k);
    }
}

/// The outcome of a tessellation. The shape is examined first, then the
/// resolution; the layout depends on the resolution alone.
pub open spec fn tessellation_of(shape: EllipsoidShape, resolution: EllipsoidOptions) -> Result<
    MeshLayoutView,
    TessellationError,
> {
    if !shape.is_valid() {
        Err(TessellationError::InvalidShape)
    } else if !resolution.is_valid() {
        Err(TessellationError::InvalidResolution)
    } else {
        Ok(layout_of(resolution.sectors as nat, resolution.stacks as nat))
    }
}

/// The inputs on which a tessellation has room to work: where a mesh is
/// due, its vertices can be named by 32-bit indices.
pub open spec fn within_limits(shape: EllipsoidShape, resolution: EllipsoidOptions) -> bool {
    shape.is_valid() && resolution.is_valid() ==> resolution.is_addressable()
}

/// The discrete part of an ellipsoid mesh: which grid sample each vertex
/// is, and the triangle list over the vertices. Positions, normals and
/// texture coordinates are one per sample, in the order of `samples`.
#[derive(Debug)]
pub struct MeshLayout {
    sectors: usize,
    stacks: usize,
    samples: Vec<GridSample>,
    indices: Vec<u32>,
}

impl View for MeshLayout {
    type V = MeshLayoutView;

    closed spec fn view(&self) -> MeshLayoutView {
        MeshLayoutView {
            sectors: self.sectors as nat,
            stacks: self.stacks as nat,
            samples: coordinates(self.samples@),
            indices: index_values(self.indices@),
        }
    }
}

impl MeshLayout {
    #[verifier::type_invariant]
    closed spec fn well_formed(&self) -> bool {
        &&& self.sectors >= 1
        &&& self.stacks >= 1
        &&& vertex_count(self.sectors as nat, self.stacks as nat) <= u32::MAX
        &&& self@ == layout_of(self.sectors as nat, self.stacks as nat)
    }

    /// The resolution of the grid that was tessellated. A layout exists
    /// only for a valid resolution, and is the layout of that resolution.
    pub fn resolution(&self) -> (r: EllipsoidOptions)
        ensures
            r.sectors == self@.sectors,
            r.stacks == self@.stacks,
            r.is_valid(),
            r.is_addressable(),
            self@ == layout_of(self@.sectors, self@.stacks),
    {
        proof {
            use_type_invariant(self);
        }
        EllipsoidOptions { sectors: self.sectors, stacks: self.stacks }
    }

    /// Number of vertices of the mesh.
    pub fn vertex_count(&self) -> (n: usize)
        ensures
            n == vertex_count(self@.sectors, self@.stacks),
            n == self@.samples.len(),
    {
        proof {
            use_type_invariant(self);
        }
        self.samples.len()
    }

    /// The grid sample of each vertex, in vertex-buffer order.
    pub fn samples(&self) -> (samples: &Vec<GridSample>)
        ensures
            coordinates(samples@) == self@.samples,
            self@.samples == grid_samples(self@.sectors, self@.stacks),
    {
        proof {
            use_type_invariant(self);
        }
        &self.samples
    }

    /// The triangle list: three vertex indices per triangle, each of them
    /// the position of a vertex.
    pub fn indices(&self) -> (indices: &Vec<u32>)
        ensures
            index_values(indices@) == self@.indices,
            self@.indices == grid_indices(self@.sectors, self@.stacks),
            indices@.len() == index_count(self@.sectors, self@.stacks),
            indices@.len() % 3 == 0,
            forall|k: int|
                0 <= k < indices@.len() ==> (#[trigger] indices@[k]) < vertex_count(
                    self@.sectors,
                    self@.stacks,
                ),
    {
        proof {
            use_type_invariant(self);
            lemma_grid_indices_len(self@.sectors, self@.stacks);
            assert forall|k: int| 0 <= k < self.indices@.len() implies (
            #[trigger] self.indices@[k]) < vertex_count(self@.sectors, self@.stacks) by {
                lemma_grid_indices_in_range(self@.sectors, self@.stacks, k);
                assert(index_values(self.indices@)[k] == self.indices@[k] as int);
            }
        }
        &self.indices
    }
}

/// Tessellates an ellipsoid at a resolution.
///
/// Fails with [`TessellationError::InvalidShape`] if a semi-axis length is
/// not strictly positive, else with
/// [`TessellationError::InvalidResolution`] if the resolution has no
/// sectors or no stacks. Both are decided before anything is allocated.
/// Otherwise the result is the layout of the grid of that resolution.
pub fn tessellate(shape: EllipsoidShape, resolution: EllipsoidOptions) -> (r: Result<
    MeshLayout,
    TessellationError,
>)
    requires
        within_limits(shape, resolution),
    ensures
        match r {
            Ok(layout) => tessellation_of(shape, resolution) == Ok::<
                MeshLayoutView,
                TessellationError,
            >(layout@) && layout@.is_consistent(),
            Err(e) => tessellation_of(shape, resolution) == Err::<
                MeshLayoutView,
                TessellationError,
            >(e),
        },
{
    if !shape.validate() {
        return Err(TessellationError::InvalidShape);
    }
    if !resolution.validate() {
        return Err(TessellationError::InvalidResolution);
    }
    let samples = sample_grid(resolution.sectors, resolution.stacks);
    let indices = stitch_indices(resolution.sectors, resolution.stacks);
    proof {
        lemma_layout_is_consistent(resolution.sectors as nat, resolution.stacks as nat);
    }
    Ok(MeshLayout { sectors: resolution.sectors, stacks: resolution.stacks, samples, indices })
}

} // verus!
