//! Profile-construction and post-processing engine for classical density
//! functional theory in pores and at planar interfaces.
//!
//! The library holds the discrete part of the engine: geometry kinds, grid
//! resolution, the rectangular per-segment fields and their shapes, the
//! lifecycle of solved profiles, the clamping of external potentials, the
//! pairwise layout of relative adsorptions and the index searches behind
//! interpolation and interfacial thickness. The numbers themselves are
//! opaque to it: every container is generic over the scalar type that the
//! caller computes with, and comparisons of scalars are handed in by the
//! caller.
mod error;
mod field;
mod geometry;
mod interface;
mod pore;
mod potential;
mod profile;
mod search;

pub use error::{Computation, DftError};
pub use field::Field;
pub use geometry::Geometry;
pub use interface::{pdgt_applicable, PlanarInterface, PDGT_GRID_POINTS};
pub use pore::{Pore1D, PoreProfile, DEFAULT_GRID_POINTS};
pub use potential::clamp_potential;
pub use profile::DensityProfile;
pub use search::{crossing_index, pairwise_matrix, tail_brackets};
