use vstd::prelude::*;

use crate::error::{Computation, DftError};
use crate::field::Field;
use crate::profile::DensityProfile;

verus! {

/// Grid resolution of the gradient-theory model that seeds an interface.
pub const PDGT_GRID_POINTS: usize = 20;

/// The gradient-theory seed exists for a single segment only; mixtures and
/// segment-resolved fluids are refused.
pub fn pdgt_applicable(segments: usize) -> (r: Result<(), DftError>)
    ensures
        r is Ok <==> segments == 1,
        r matches Err(e) ==> e == (DftError::PreconditionViolation { computation: Computation::Pdgt }),
{
    if segments == 1 {
        Ok(())
    } else {
        Err(DftError::PreconditionViolation { computation: Computation::Pdgt })
    }
}

/// Density profile of a planar vapor-liquid interface, the two-phase
/// equilibrium it connects, and the scalars of its solution.
pub struct PlanarInterface<X, E, S> {
    pub profile: DensityProfile<X, S>,
    pub vle: E,
    pub surface_tension: Option<S>,
    pub equimolar_radius: Option<S>,
}

impl<X, E, S> PlanarInterface<X, E, S> {
    /// The profile is well formed, and its two scalars are either both
    /// unknown (not yet solved) or both known.
    pub open spec fn wf(&self) -> bool {
        &&& self.profile.wf()
        &&& self.surface_tension.is_some() == self.equimolar_radius.is_some()
    }

    pub open spec fn is_solved(&self) -> bool {
        self.surface_tension.is_some()
    }

    /// An unsolved interface of `segments` segments on `n_grid` grid points
    /// over a domain of length `l_grid`, seeded with `density`. An interface
    /// feels no external potential: it is `zero` everywhere.
    ///
    /// `positive(l)` tells whether a length `l` is strictly positive. Fails
    /// with a construction error when the domain length is not, or the grid
    /// is empty, and with a shape mismatch when the seed does not cover
    /// every segment on every grid point.
    pub fn new<F: Fn(&S) -> bool>(
        context: X,
        vle: E,
        segments: usize,
        n_grid: usize,
        l_grid: &S,
        density: Field<S>,
        zero: S,
        positive: F,
    ) -> (r: Result<Self, DftError>)
        where
            S: Copy,
        requires
            positive.requires((l_grid,)),
            forall|a: bool, b: bool| positive.ensures((l_grid,), a) && positive.ensures((l_grid,), b) ==> a == b,
        ensures
            (positive.ensures((l_grid,), false) || n_grid == 0) ==> r == Err::<Self, DftError>(
                DftError::Construction { computation: Computation::Construction },
            ),
            r is Ok ==> positive.ensures((l_grid,), true),
            !positive.ensures((l_grid,), false) && n_grid > 0 ==> (r is Ok <==> (density@.len() == segments
                && density.width() == n_grid)),
            !positive.ensures((l_grid,), false) && n_grid > 0 && r is Err ==> r == Err::<Self, DftError>(
                DftError::ShapeMismatch {
                    computation: Computation::Initialization,
                    expected_segments: segments,
                    expected_points: n_grid,
                    found_segments: density@.len() as usize,
                    found_points: density.width() as usize,
                },
            ),
            r matches Ok(p) ==> {
                &&& p.wf()
                &&& !p.is_solved()
                &&& p.profile.context == context
                &&& p.vle == vle
                &&& p.profile.density == density
                &&& forall|i: int, j: int|
                    0 <= i < segments && 0 <= j < n_grid ==> #[trigger] p.profile.external_potential@[i][j]
                        == zero
            },
    {
        if !positive(l_grid) || n_grid == 0 {
            return Err(DftError::Construction { computation: Computation::Construction });
        }
        let external_potential = Field::filled(segments, n_grid, zero);
        match DensityProfile::new(context, segments, n_grid, density, external_potential) {
            Err(e) => Err(e),
            Ok(profile) => Ok(
                PlanarInterface { profile, vle, surface_tension: None, equimolar_radius: None },
            ),
        }
    }

    /// Stores the scalars of a successful solve, both at once.
    pub fn record_solution(&mut self, surface_tension: S, equimolar_radius: S)
        requires
            old(self).wf(),
        ensures
            final(self).wf(),
            final(self).profile == old(self).profile,
            final(self).vle == old(self).vle,
            final(self).surface_tension == Some(surface_tension),
            final(self).equimolar_radius == Some(equimolar_radius),
    {
        self.surface_tension = Some(surface_tension);
        self.equimolar_radius = Some(equimolar_radius);
    }

    /// Replaces the density field by `init`, which must have the shape of
    /// the current one; afterwards the density field reads back as `init`.
    pub fn set_density_inplace(&mut self, init: Field<S>) -> (r: Result<(), DftError>)
        requires
            old(self).wf(),
        ensures
            final(self).wf(),
            r is Ok <==> (init@.len() == old(self).profile.segments() && init.width()
                == old(self).profile.points()),
            r matches Err(e) ==> e == (DftError::PreconditionViolation {
                computation: Computation::SetDensity,
            }),
            r is Ok ==> final(self).profile.density == init && final(self).profile.density@ == init@,
            r is Err ==> final(self).profile.density == old(self).profile.density,
            final(self).profile.context == old(self).profile.context,
            final(self).profile.external_potential == old(self).profile.external_potential,
            final(self).vle == old(self).vle,
            final(self).surface_tension == old(self).surface_tension,
            final(self).equimolar_radius == old(self).equimolar_radius,
    {
        let (segments, points) = self.profile.shape();
        let (n, m) = init.shape();
        if n != segments || m != points {
            return Err(DftError::PreconditionViolation { computation: Computation::SetDensity });
        }
        self.profile.density = init;
        Ok(())
    }

    /// Consuming form of `set_density_inplace`.
    pub fn set_density(self, init: Field<S>) -> (r: Result<Self, DftError>)
        requires
            self.wf(),
        ensures
            r is Ok <==> (init@.len() == self.profile.segments() && init.width() == self.profile.points()),
            r matches Err(e) ==> e == (DftError::PreconditionViolation {
                computation: Computation::SetDensity,
            }),
            r matches Ok(p) ==> p.wf() && p.profile.density@ == init@ && p.profile.context
                == self.profile.context && p.profile.external_potential == self.profile.external_potential
                && p.vle == self.vle && p.surface_tension == self.surface_tension && p.equimolar_radius
                == self.equimolar_radius,
    {
        let mut s = self;
        match s.set_density_inplace(init) {
            Ok(()) => Ok(s),
            Err(e) => Err(e),
        }
    }
}

} // verus!
