use vstd::prelude::*;

use crate::error::{Computation, DftError};
use crate::field::{is_rect, Field};

verus! {

/// The mutable core of a profile: the density of each segment on each grid
/// point and the external potential acting there, together with the context
/// that the collaborators evaluate them in (grid, convolution plan, bulk
/// reference state and solve specification).
pub struct DensityProfile<X, S> {
    pub context: X,
    pub density: Field<S>,
    pub external_potential: Field<S>,
}

/// Whether `f` has `segments` rows of `points` entries.
pub open spec fn has_shape<S>(f: Field<S>, segments: usize, points: usize) -> bool {
    f@.len() == segments && f.width() == points
}

/// The failure that assembling a profile reports: the external potential is
/// validated first, then the density.
pub open spec fn shape_error<S>(
    segments: usize,
    points: usize,
    density: Field<S>,
    external_potential: Field<S>,
) -> DftError {
    let found = if has_shape(external_potential, segments, points) {
        density
    } else {
        external_potential
    };
    DftError::ShapeMismatch {
        computation: Computation::Initialization,
        expected_segments: segments,
        expected_points: points,
        found_segments: found@.len() as usize,
        found_points: found.width() as usize,
    }
}

impl<X, S> DensityProfile<X, S> {
    /// Density and external potential share the shape (segments, grid points).
    pub open spec fn wf(&self) -> bool {
        &&& self.external_potential@.len() == self.density@.len()
        &&& self.external_potential.width() == self.density.width()
    }

    /// Number of segments.
    pub open spec fn segments(&self) -> nat {
        self.density@.len()
    }

    /// Number of grid points.
    pub open spec fn points(&self) -> nat {
        self.density.width()
    }

    /// Assembles a profile of `segments` segments on `points` grid points,
    /// or reports the first of its two fields that has another shape.
    pub fn new(
        context: X,
        segments: usize,
        points: usize,
        density: Field<S>,
        external_potential: Field<S>,
    ) -> (r: Result<Self, DftError>)
        ensures
            r is Ok <==> (has_shape(external_potential, segments, points) && has_shape(
                density,
                segments,
                points,
            )),
            r matches Ok(p) ==> p.wf() && p.context == context && p.density == density
                && p.external_potential == external_potential && p.segments() == segments
                && p.points() == points,
            r matches Err(e) ==> e == shape_error(segments, points, density, external_potential),
    {
        match external_potential.check_shape(segments, points, Computation::Initialization) {
            Err(e) => Err(e),
            Ok(()) => match density.check_shape(segments, points, Computation::Initialization) {
                Err(e) => Err(e),
                Ok(()) => Ok(DensityProfile { context, density, external_potential }),
            },
        }
    }

    /// Number of segments and grid points of the profile.
    pub fn shape(&self) -> (r: (usize, usize))
        ensures
            r.0 == self.segments(),
            r.1 == self.points(),
            is_rect(self.density@, r.0 as nat, r.1 as nat),
    {
        self.density.shape()
    }
}

} // verus!
