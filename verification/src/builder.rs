//! A builder that bundles an ellipsoid with a default resolution.

use vstd::prelude::*;
use crate::mesh::{tessellate, tessellation_of, within_limits, MeshLayout, MeshLayoutView, TessellationError};
use crate::options::{EllipsoidOptions, DEFAULT_SECTORS, DEFAULT_STACKS};
use crate::shape::EllipsoidShape;

verus! {

/// A builder used for creating the mesh of an ellipsoid.
#[derive(Clone, Copy, Debug)]
pub struct EllipsoidMeshBuilder {
    /// The ellipsoid shape.
    pub ellipsoid: EllipsoidShape,
    /// The resolution used by [`Self::build`].
    pub options: EllipsoidOptions,
}

impl EllipsoidMeshBuilder {
    /// Creates a builder from three encoded semi-axis lengths, with the
    /// default resolution of 32 sectors and 16 stacks.
    pub fn new(a: u32, b: u32, c: u32) -> (builder: Self)
        ensures
            builder.ellipsoid == (EllipsoidShape { a, b, c }),
            builder.options == (EllipsoidOptions {
                sectors: DEFAULT_SECTORS,
                stacks: DEFAULT_STACKS,
            }),
    {
        EllipsoidMeshBuilder {
            ellipsoid: EllipsoidShape { a, b, c },
            options: EllipsoidOptions { sectors: DEFAULT_SECTORS, stacks: DEFAULT_STACKS },
        }
    }

    /// Creates the mesh of the ellipsoid with the given number of
    /// longitudinal sectors and latitudinal stacks, aka horizontal and
    /// vertical resolution. The resolution of the builder is not used.
    pub fn uv(&self, sectors: usize, stacks: usize) -> (r: Result<MeshLayout, TessellationError>)
        requires
            within_limits(self.ellipsoid, EllipsoidOptions { sectors, stacks }),
        ensures
            match r {
                Ok(layout) => tessellation_of(self.ellipsoid, EllipsoidOptions { sectors, stacks })
                    == Ok::<MeshLayoutView, TessellationError>(layout@) && layout@.is_consistent(),
                Err(e) => tessellation_of(self.ellipsoid, EllipsoidOptions { sectors, stacks })
                    == Err::<MeshLayoutView, TessellationError>(e),
            },
    {
        tessellate(self.ellipsoid, EllipsoidOptions { sectors, stacks })
    }

    /// Builds the mesh at the resolution of the builder.
    pub fn build(&self) -> (r: Result<MeshLayout, TessellationError>)
        requires
            within_limits(self.ellipsoid, self.options),
        ensures
            match r {
                Ok(layout) => tessellation_of(self.ellipsoid, self.options) == Ok::<
                    MeshLayoutView,
                    TessellationError,
                >(layout@) && layout@.is_consistent(),
                Err(e) => tessellation_of(self.ellipsoid, self.options) == Err::<
                    MeshLayoutView,
                    TessellationError,
                >(e),
            },
    {
        self.uv(self.options.sectors, self.options.stacks)
    }
}

impl EllipsoidShape {
    /// A builder for the mesh of this ellipsoid, at the default resolution.
    pub fn mesh(&self) -> (builder: EllipsoidMeshBuilder)
        ensures
            builder.ellipsoid == *self,
            builder.options == (EllipsoidOptions {
                sectors: DEFAULT_SECTORS,
                stacks: DEFAULT_STACKS,
            }),
    {
        EllipsoidMeshBuilder { ellipsoid: *self, options: EllipsoidOptions::default() }
    }
}

} // verus!
