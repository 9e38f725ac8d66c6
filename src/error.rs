use vstd::prelude::*;

verus! {

/// The computation that produced a failure.
#[derive(Clone, Copy, Debug, PartialEq, Eq, Structural)]
pub enum Computation {
    /// Building the grid of a pore or an interface.
    Construction,
    /// Assembling a density profile from its parts.
    Initialization,
    /// The delegated solve and the scalars derived from it.
    Solve,
    /// Seeding an interface from the gradient-theory model.
    Pdgt,
    /// Moving the grid to the equimolar dividing surface.
    ShiftEquimolar,
    /// Interpolating a coarse profile onto a fine grid.
    Interpolation,
    /// Relative adsorption of one component with respect to another.
    RelativeAdsorption,
    /// Interfacial enrichment of each component.
    InterfacialEnrichment,
    /// Distance between two density thresholds of an interface.
    InterfacialThickness,
    /// Replacing the density field of an interface.
    SetDensity,
}

/// Failures of the profile engine, each tagged with its computation.
#[derive(Clone, Copy, Debug, PartialEq, Eq, Structural)]
pub enum DftError {
    /// Invalid geometry or grid parameters.
    Construction { computation: Computation },
    /// An array whose shape is not (segments, grid points) of the profile.
    ShapeMismatch {
        computation: Computation,
        expected_segments: usize,
        expected_points: usize,
        found_segments: usize,
        found_points: usize,
    },
    /// A non-finite value where a finite one is required.
    NumericalInvalid { computation: Computation },
    /// Arguments or states outside the domain of the computation.
    PreconditionViolation { computation: Computation },
}

impl DftError {
    /// The computation that produced this failure.
    pub fn computation(&self) -> (r: Computation)
        ensures
            r == self.computation_spec(),
    {
        match self {
            DftError::Construction { computation } => *computation,
            DftError::ShapeMismatch { computation, .. } => *computation,
            DftError::NumericalInvalid { computation } => *computation,
            DftError::PreconditionViolation { computation } => *computation,
        }
    }

    pub open spec fn computation_spec(&self) -> Computation {
        match *self {
            DftError::Construction { computation } => computation,
            DftError::ShapeMismatch { computation, .. } => computation,
            DftError::NumericalInvalid { computation } => computation,
            DftError::PreconditionViolation { computation } => computation,
        }
    }
}

} // verus!
