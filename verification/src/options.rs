//! The tessellation resolution.

use vstd::prelude::*;
use crate::grid::{lemma_vertex_count_bounds, vertex_count};

verus! {

/// Number of longitudinal sectors used when nothing else is asked for.
pub const DEFAULT_SECTORS: usize = 32;

/// Number of latitudinal stacks used when nothing else is asked for.
pub const DEFAULT_STACKS: usize = 16;

/// Ellipsoid mesh options: the resolution of the latitude/longitude grid.
#[derive(Clone, Copy, Debug, PartialEq, Eq, Structural)]
pub struct EllipsoidOptions {
    /// The number of longitudinal sectors, aka the horizontal resolution.
    pub sectors: usize,
    /// The number of latitudinal stacks, aka the vertical resolution.
    pub stacks: usize,
}

impl EllipsoidOptions {
    /// A resolution is valid when it has at least one sector and one stack.
    pub open spec fn is_valid(self) -> bool {
        self.sectors >= 1 && self.stacks >= 1
    }

    /// Number of grid samples of this resolution: one more row than stacks,
    /// one more column than sectors.
    pub open spec fn vertex_count(self) -> nat {
        vertex_count(self.sectors as nat, self.stacks as nat)
    }

    /// Every grid sample of this resolution can be named by a 32-bit index.
    pub open spec fn is_addressable(self) -> bool {
        self.vertex_count() <= u32::MAX
    }

    /// A resolution of `sectors` longitudinal and `stacks` latitudinal
    /// divisions. Nothing is checked here; see [`Self::validate`].
    pub fn new(sectors: usize, stacks: usize) -> (r: Self)
        ensures
            r.sectors == sectors,
            r.stacks == stacks,
    {
        EllipsoidOptions { sectors, stacks }
    }

    /// Whether both components are at least one.
    pub fn validate(&self) -> (ok: bool)
        ensures
            ok == self.is_valid(),
    {
        self.sectors >= 1 && self.stacks >= 1
    }

    /// Whether the vertex count fits in 32 bits, decided without overflow.
    pub fn addressable(&self) -> (ok: bool)
        ensures
            ok == self.is_addressable(),
    {
        let rows = match self.stacks.checked_add(1) {
            Some(rows) => rows,
            None => {
                proof {
                    lemma_vertex_count_bounds(self.sectors as nat, self.stacks as nat);
                }
                return false;
            },
        };
        let cols = match self.sectors.checked_add(1) {
            Some(cols) => cols,
            None => {
                proof {
                    lemma_vertex_count_bounds(self.sectors as nat, self.stacks as nat);
                }
                return false;
            },
        };
        match rows.checked_mul(cols) {
            Some(count) => count <= 0xffff_ffff,
            None => false,
        }
    }
}

impl Default for EllipsoidOptions {
    fn default() -> (r: Self)
        ensures
            r.sectors == DEFAULT_SECTORS,
            r.stacks == DEFAULT_STACKS,
    {
        EllipsoidOptions { sectors: DEFAULT_SECTORS, stacks: DEFAULT_STACKS }
    }
}

} // verus!
