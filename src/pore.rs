use vstd::prelude::*;

use crate::error::{Computation, DftError};
use crate::field::Field;
use crate::geometry::{dimension_of, Geometry};
use crate::profile::{has_shape, shape_error, DensityProfile};

verus! {

/// Grid resolution of a pore whose specification names none.
pub const DEFAULT_GRID_POINTS: usize = 2048;

/// Grid resolution that a specification asks for, or the construction
/// failure when it asks for an empty grid.
pub open spec fn resolved_grid_points(n_grid: Option<usize>) -> Result<usize, DftError> {
    match n_grid {
        None => Ok(DEFAULT_GRID_POINTS),
        Some(n) => if n == 0 {
            Err(DftError::Construction { computation: Computation::Construction })
        } else {
            Ok(n)
        },
    }
}

/// Parameters of a one-dimensional pore: its geometry, its size (width of a
/// slit, radius otherwise), the wall potential, the grid resolution and the
/// cutoff of the external potential.
pub struct Pore1D<S, P> {
    pub geometry: Geometry,
    pub pore_size: S,
    pub potential: P,
    pub n_grid: Option<usize>,
    pub potential_cutoff: Option<S>,
}

impl<S, P> Pore1D<S, P> {
    pub fn new(
        geometry: Geometry,
        pore_size: S,
        potential: P,
        n_grid: Option<usize>,
        potential_cutoff: Option<S>,
    ) -> (r: Self)
        ensures
            r.geometry == geometry,
            r.pore_size == pore_size,
            r.potential == potential,
            r.n_grid == n_grid,
            r.potential_cutoff == potential_cutoff,
    {
        Pore1D { geometry, pore_size, potential, n_grid, potential_cutoff }
    }

    /// Number of spatial dimensions of the pore.
    pub fn dimension(&self) -> (r: i32)
        ensures
            r == dimension_of(self.geometry),
    {
        self.geometry.dimension()
    }

    /// Number of grid points of the pore's axis.
    pub fn grid_points(&self) -> (r: Result<usize, DftError>)
        ensures
            r == resolved_grid_points(self.n_grid),
    {
        match self.n_grid {
            None => Ok(DEFAULT_GRID_POINTS),
            Some(n) => if n == 0 {
                Err(DftError::Construction { computation: Computation::Construction })
            } else {
                Ok(n)
            },
        }
    }

    /// Assembles the unsolved profile of the pore for a fluid of `segments`
    /// segments, from its seed density and its external potential.
    ///
    /// `positive(s)` tells whether a size `s` is strictly positive. Fails
    /// with a construction error when the pore size is not, or the grid is
    /// empty, and with a shape mismatch when either field does not cover
    /// every segment on every grid point.
    pub fn initialize<X, F: Fn(&S) -> bool>(
        &self,
        context: X,
        segments: usize,
        density: Field<S>,
        external_potential: Field<S>,
        positive: F,
    ) -> (r: Result<PoreProfile<X, S>, DftError>)
        requires
            positive.requires((&self.pore_size,)),
            forall|a: bool, b: bool|
                positive.ensures((&self.pore_size,), a) && positive.ensures((&self.pore_size,), b) ==> a == b,
        ensures
            positive.ensures((&self.pore_size,), false) ==> r == Err::<PoreProfile<X, S>, DftError>(
                DftError::Construction { computation: Computation::Construction },
            ),
            resolved_grid_points(self.n_grid) is Err ==> r == Err::<PoreProfile<X, S>, DftError>(
                DftError::Construction { computation: Computation::Construction },
            ),
            r is Ok ==> positive.ensures((&self.pore_size,), true),
            !positive.ensures((&self.pore_size,), false) ==> (resolved_grid_points(self.n_grid) matches Ok(n)
                ==> (r is Ok <==> (has_shape(external_potential, segments, n) && has_shape(
                density,
                segments,
                n,
            )))),
            !positive.ensures((&self.pore_size,), false) ==> (resolved_grid_points(self.n_grid) matches Ok(n)
                ==> (r matches Err(e) ==> e == shape_error(segments, n, density, external_potential))),
            r matches Ok(p) ==> p.wf() && !p.is_solved() && p.profile.context == context
                && p.profile.density == density && p.profile.external_potential == external_potential,
    {
        if !positive(&self.pore_size) {
            return Err(DftError::Construction { computation: Computation::Construction });
        }
        let n = match self.grid_points() {
            Err(e) => {
                return Err(e);
            },
            Ok(n) => n,
        };
        match DensityProfile::new(context, segments, n, density, external_potential) {
            Err(e) => Err(e),
            Ok(profile) => Ok(PoreProfile::new(profile)),
        }
    }
}

/// Density profile of a confined fluid and the scalars of its solution.
pub struct PoreProfile<X, S> {
    pub profile: DensityProfile<X, S>,
    pub grand_potential: Option<S>,
    pub interfacial_tension: Option<S>,
}

impl<X, S> PoreProfile<X, S> {
    /// The profile is well formed, and its two scalars are either both
    /// unknown (not yet solved) or both known.
    pub open spec fn wf(&self) -> bool {
        &&& self.profile.wf()
        &&& self.grand_potential.is_some() == self.interfacial_tension.is_some()
    }

    pub open spec fn is_solved(&self) -> bool {
        self.grand_potential.is_some()
    }

    /// An unsolved pore profile.
    pub fn new(profile: DensityProfile<X, S>) -> (r: Self)
        requires
            profile.wf(),
        ensures
            r.wf(),
            r.profile == profile,
            r.grand_potential is None,
            r.interfacial_tension is None,
    {
        PoreProfile { profile, grand_potential: None, interfacial_tension: None }
    }

    /// Stores the scalars of a successful solve, both at once.
    pub fn record_solution(&mut self, grand_potential: S, interfacial_tension: S)
        requires
            old(self).wf(),
        ensures
            final(self).wf(),
            final(self).profile == old(self).profile,
            final(self).grand_potential == Some(grand_potential),
            final(self).interfacial_tension == Some(interfacial_tension),
    {
        self.grand_potential = Some(grand_potential);
        self.interfacial_tension = Some(interfacial_tension);
    }

    /// Moves the profile to a new context (another bulk state), which
    /// discards the scalars solved against the old one.
    pub fn update_bulk(self, context: X) -> (r: Self)
        requires
            self.wf(),
        ensures
            r.wf(),
            r.profile.context == context,
            r.profile.density == self.profile.density,
            r.profile.external_potential == self.profile.external_potential,
            r.grand_potential is None,
            r.interfacial_tension is None,
    {
        let DensityProfile { context: _, density, external_potential } = self.profile;
        PoreProfile {
            profile: DensityProfile { context, density, external_potential },
            grand_potential: None,
            interfacial_tension: None,
        }
    }
}

} // verus!
