use mappers::projections::{
    AzimuthalEquidistant, EquidistantCylindrical, LambertConformalConic,
    ModifiedAzimuthalEquidistant, ObliqueLonLat,
};
use mappers::{Ellipsoid, Fp, ParamName, Projection, ProjectionError};

fn v_fp(v: f64) -> Fp {
    Fp(v.to_bits())
}

#[test]
fn construction_succeeds_in_canonical_ranges() {
    for lon in [-179, -120, -60, 0, 60, 120, 179] {
        for lat in [-89, -45, 0, 45, 89] {
            let lon = v_fp(lon as f64);
            let lat = v_fp(lat as f64);
            assert!(AzimuthalEquidistant::new(lon, lat, Ellipsoid::wgs84()).is_ok());
            assert!(ModifiedAzimuthalEquidistant::new(lon, lat, Ellipsoid::wgs84()).is_ok());
            assert!(EquidistantCylindrical::new(lon, lat, v_fp(10.0)).is_ok());
            assert!(ObliqueLonLat::new(lon, lat, None).is_ok());
            assert!(
                LambertConformalConic::new(lon, lat, v_fp(30.0), v_fp(60.0), Ellipsoid::wgs84())
                    .is_ok()
            );
        }
    }
}

#[test]
fn boundary_longitude_is_out_of_range() {
    let lon = v_fp(180.0);
    let lat = v_fp(0.0);
    assert!(matches!(
        AzimuthalEquidistant::new(lon, lat, Ellipsoid::wgs84()),
        Err(ProjectionError::ParamOutOfRange(ParamName::RefLon, -180, 180))
    ));
    assert!(matches!(
        ModifiedAzimuthalEquidistant::new(lon, lat, Ellipsoid::wgs84()),
        Err(ProjectionError::ParamOutOfRange(ParamName::RefLon, -180, 180))
    ));
    assert!(matches!(
        EquidistantCylindrical::new(lon, lat, v_fp(10.0)),
        Err(ProjectionError::ParamOutOfRange(ParamName::RefLon, -180, 180))
    ));
    assert!(matches!(
        ObliqueLonLat::new(lon, lat, None),
        Err(ProjectionError::ParamOutOfRange(ParamName::PoleLon, -180, 180))
    ));
    assert!(matches!(
        LambertConformalConic::new(lon, lat, v_fp(30.0), v_fp(60.0), Ellipsoid::wgs84()),
        Err(ProjectionError::ParamOutOfRange(ParamName::RefLon, -180, 180))
    ));
}

#[test]
fn boundary_latitude_is_out_of_range() {
    let lon = v_fp(0.0);
    assert!(matches!(
        AzimuthalEquidistant::new(lon, v_fp(90.0), Ellipsoid::wgs84()),
        Err(ProjectionError::ParamOutOfRange(ParamName::RefLat, -90, 90))
    ));
    assert!(matches!(
        LambertConformalConic::new(lon, v_fp(0.0), v_fp(30.0), v_fp(95.0), Ellipsoid::wgs84()),
        Err(ProjectionError::ParamOutOfRange(ParamName::StdPar2, -90, 90))
    ));
    assert!(matches!(
        EquidistantCylindrical::new(lon, v_fp(0.0), v_fp(-90.5)),
        Err(ProjectionError::ParamOutOfRange(ParamName::StdPar, -90, 90))
    ));
    assert!(matches!(
        ObliqueLonLat::new(lon, v_fp(-91.0), None),
        Err(ProjectionError::ParamOutOfRange(ParamName::PoleLat, -90, 90))
    ));
}

#[test]
fn non_finite_parameters_are_rejected() {
    assert!(matches!(
        AzimuthalEquidistant::new(v_fp(f64::NAN), v_fp(0.0), Ellipsoid::wgs84()),
        Err(ProjectionError::ParamNotFinite(ParamName::RefLon))
    ));
    assert!(matches!(
        ModifiedAzimuthalEquidistant::new(v_fp(0.0), v_fp(f64::INFINITY), Ellipsoid::wgs84()),
        Err(ProjectionError::ParamNotFinite(ParamName::RefLat))
    ));
    assert!(matches!(
        EquidistantCylindrical::new(v_fp(0.0), v_fp(0.0), v_fp(f64::NEG_INFINITY)),
        Err(ProjectionError::ParamNotFinite(ParamName::StdPar))
    ));
    assert!(matches!(
        ObliqueLonLat::new(v_fp(0.0), v_fp(0.0), Some(v_fp(f64::NAN))),
        Err(ProjectionError::ParamNotFinite(ParamName::CentralLon))
    ));
    assert!(matches!(
        LambertConformalConic::new(
            v_fp(0.0),
            v_fp(0.0),
            v_fp(f64::NAN),
            v_fp(60.0),
            Ellipsoid::wgs84()
        ),
        Err(ProjectionError::ParamNotFinite(ParamName::StdPar1))
    ));
}

#[test]
fn non_finite_projection_results_are_reported() {
    let eqc = EquidistantCylindrical::new(v_fp(0.0), v_fp(0.0), v_fp(0.0)).unwrap();

    // An enormous longitude overflows the planar x coordinate.
    let failed = eqc.project(v_fp(f64::MAX), v_fp(0.0));
    assert!(matches!(failed, Err(ProjectionError::ProjectionImpossible(_, _))));

    // A non-finite planar input propagates into a non-finite longitude.
    let failed = eqc.inverse_project(v_fp(f64::INFINITY), v_fp(0.0));
    assert!(matches!(
        failed,
        Err(ProjectionError::InverseProjectionImpossible(_, _))
    ));

    // The errors carry the offending inputs.
    match eqc.project(v_fp(f64::MAX), v_fp(1.0)) {
        Err(ProjectionError::ProjectionImpossible(lon, lat)) => {
            assert_eq!(lon.0, f64::MAX.to_bits());
            assert_eq!(lat.0, 1.0f64.to_bits());
        }
        other => panic!("expected a projection failure, got {:?}", other),
    }
}
