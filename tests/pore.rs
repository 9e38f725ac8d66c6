use feos_dft::{
    clamp_potential, Computation, DensityProfile, DftError, Field, Geometry, Pore1D, PoreProfile,
    DEFAULT_GRID_POINTS,
};

fn positive(x: &f64) -> bool {
    *x > 0.0
}

fn field(rows: Vec<Vec<f64>>, cols: usize) -> Field<f64> {
    Field::from_rows(rows, cols).unwrap()
}

#[test]
fn geometry_dimensions() {
    assert_eq!(Geometry::Cartesian.dimension(), 1);
    assert_eq!(Geometry::Cylindrical.dimension(), 2);
    assert_eq!(Geometry::Spherical.dimension(), 3);
}

#[test]
fn only_slits_are_centered() {
    assert!(Geometry::Cartesian.is_centered());
    assert!(!Geometry::Cylindrical.is_centered());
    assert!(!Geometry::Spherical.is_centered());
}

#[test]
fn pore_keeps_its_parameters() {
    let pore = Pore1D::new(Geometry::Cylindrical, 20.0, "lj93", Some(256), Some(50.0));
    assert_eq!(pore.geometry, Geometry::Cylindrical);
    assert_eq!(pore.pore_size, 20.0);
    assert_eq!(pore.potential, "lj93");
    assert_eq!(pore.n_grid, Some(256));
    assert_eq!(pore.potential_cutoff, Some(50.0));
    assert_eq!(pore.dimension(), 2);
}

#[test]
fn grid_points_default_and_explicit() {
    let pore = Pore1D::new(Geometry::Cartesian, 20.0, (), None, None);
    assert_eq!(pore.grid_points(), Ok(DEFAULT_GRID_POINTS));
    assert_eq!(DEFAULT_GRID_POINTS, 2048);
    let pore = Pore1D::new(Geometry::Cartesian, 20.0, (), Some(256), None);
    assert_eq!(pore.grid_points(), Ok(256));
}

#[test]
fn empty_grid_is_a_construction_error() {
    let pore = Pore1D::new(Geometry::Spherical, 10.0, (), Some(0), None);
    let e = pore.grid_points().unwrap_err();
    assert_eq!(e, DftError::Construction { computation: Computation::Construction });
    assert_eq!(e.computation(), Computation::Construction);
    let r = pore.initialize("ctx", 1, Field::filled(1, 0, 0.0), Field::filled(1, 0, 0.0), positive);
    assert_eq!(r.err(), Some(DftError::Construction { computation: Computation::Construction }));
}

#[test]
fn initialize_gives_an_unsolved_profile() {
    let pore = Pore1D::new(Geometry::Cartesian, 20.0, (), Some(4), None);
    let rho = field(vec![vec![0.1, 0.2, 0.3, 0.4], vec![0.5, 0.6, 0.7, 0.8]], 4);
    let pot = Field::filled(2, 4, 1.5);
    let p = pore.initialize("ctx", 2, rho, pot, positive).ok().unwrap();
    assert!(p.grand_potential.is_none());
    assert!(p.interfacial_tension.is_none());
    assert_eq!(p.profile.context, "ctx");
    assert_eq!(p.profile.shape(), (2, 4));
    assert_eq!(*p.profile.density.get(1, 2), 0.7);
    assert_eq!(*p.profile.external_potential.get(0, 3), 1.5);
}

#[test]
fn initialize_rejects_a_potential_of_another_shape() {
    let pore = Pore1D::new(Geometry::Cartesian, 20.0, (), Some(4), None);
    let rho = Field::filled(1, 4, 0.1);
    let pot = Field::filled(1, 5, 0.0);
    let e = pore.initialize((), 1, rho, pot, positive).err().unwrap();
    assert_eq!(
        e,
        DftError::ShapeMismatch {
            computation: Computation::Initialization,
            expected_segments: 1,
            expected_points: 4,
            found_segments: 1,
            found_points: 5,
        }
    );
}

#[test]
fn initialize_rejects_a_density_of_another_shape() {
    let pore = Pore1D::new(Geometry::Spherical, 20.0, (), None, None);
    let rho = Field::filled(2, 2048, 0.1);
    let pot = Field::filled(1, 2048, 0.0);
    let e = pore.initialize((), 1, rho, pot, positive).err().unwrap();
    assert_eq!(
        e,
        DftError::ShapeMismatch {
            computation: Computation::Initialization,
            expected_segments: 1,
            expected_points: 2048,
            found_segments: 2,
            found_points: 2048,
        }
    );
}

#[test]
fn solution_is_recorded_and_discarded_with_the_bulk() {
    let profile =
        DensityProfile::new(1u8, 1, 3, Field::filled(1, 3, 0.2), Field::filled(1, 3, 0.0))
            .ok()
            .unwrap();
    let mut pore = PoreProfile::new(profile);
    pore.record_solution(-3.5, 0.25);
    assert_eq!(pore.grand_potential, Some(-3.5));
    assert_eq!(pore.interfacial_tension, Some(0.25));
    let pore = pore.update_bulk(2u8);
    assert_eq!(pore.profile.context, 2u8);
    assert_eq!(pore.grand_potential, None);
    assert_eq!(pore.interfacial_tension, None);
    assert_eq!(*pore.profile.density.get(0, 2), 0.2);
}

#[test]
fn potential_is_clamped_to_the_cutoff() {
    let raw = field(vec![vec![1.0, 80.0, 3.0, f64::INFINITY], vec![-2.0, 4.0, 60.0, 0.5]], 4);
    let cutoff = 50.0;
    let r = clamp_potential(&raw, cutoff, |j: usize| j == 3, |v: f64| v > cutoff);
    let rows = r.into_rows();
    assert_eq!(rows, vec![vec![1.0, 50.0, 3.0, 50.0], vec![-2.0, 4.0, 50.0, 50.0]]);
    for row in rows {
        for v in row {
            assert!(v.is_finite() && v <= cutoff);
        }
    }
}

#[test]
fn non_positive_pore_size_is_a_construction_error() {
    let construction = DftError::Construction { computation: Computation::Construction };
    for size in [-1.0, 0.0, f64::NAN] {
        let pore = Pore1D::new(Geometry::Cartesian, size, (), Some(1), None);
        let r = pore.initialize((), 1, Field::filled(1, 1, 0.1), Field::filled(1, 1, 0.0), positive);
        assert_eq!(r.err(), Some(construction));
    }
}
