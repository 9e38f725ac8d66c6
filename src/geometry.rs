use vstd::prelude::*;

verus! {

/// Geometry of a one-dimensional pore, solved on a one-dimensional grid.
#[derive(Clone, Copy, Debug, PartialEq, Eq, Structural)]
pub enum Geometry {
    /// Planar slit between two parallel walls.
    Cartesian,
    /// Cylindrical pore, resolved along its radius.
    Cylindrical,
    /// Spherical pore, resolved along its radius.
    Spherical,
}

/// Number of physical dimensions of a geometry.
pub open spec fn dimension_of(g: Geometry) -> i32 {
    match g {
        Geometry::Cartesian => 1,
        Geometry::Cylindrical => 2,
        Geometry::Spherical => 3,
    }
}

impl Geometry {
    /// Number of physical dimensions that the geometry spans.
    pub fn dimension(&self) -> (r: i32)
        ensures
            r == dimension_of(*self),
            1 <= r <= 3,
    {
        match self {
            Geometry::Cartesian => 1,
            Geometry::Cylindrical => 2,
            Geometry::Spherical => 3,
        }
    }

    /// Whether the grid is centered on the pore and padded beyond the walls,
    /// with half the pore size as half-width (slits); otherwise it spans the
    /// full radius from the center.
    pub fn is_centered(&self) -> (r: bool)
        ensures
            r == (*self == Geometry::Cartesian),
    {
        match self {
            Geometry::Cartesian => true,
            _ => false,
        }
    }
}

} // verus!
