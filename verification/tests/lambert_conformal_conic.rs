use mappers::projections::LambertConformalConic;
use mappers::{Ellipsoid, Fp, Projection, ProjectionError};

fn lcc_fp(v: f64) -> Fp {
    Fp(v.to_bits())
}

fn lcc_val(x: Fp) -> f64 {
    f64::from_bits(x.0)
}

#[test]
fn lambert_conformal_conic_test_constructor() {
    {
        let lcc = LambertConformalConic::new(
            lcc_fp(2.0),
            lcc_fp(0.0),
            lcc_fp(0.0),
            lcc_fp(0.0),
            Ellipsoid::wgs84(),
        );
        assert!(lcc.is_err());
    }

    for std_par_1 in 1..90 {
        for std_par_2 in 1..90 {
            let lcc = LambertConformalConic::new(
                lcc_fp(2.0),
                lcc_fp(0.0),
                lcc_fp(std_par_1 as f64),
                lcc_fp(std_par_2 as f64),
                Ellipsoid::wgs84(),
            );
            assert!(lcc.is_ok());
        }
    }

    for std_par_1 in -90..-1 {
        for std_par_2 in -90..-1 {
            let lcc = LambertConformalConic::new(
                lcc_fp(2.0),
                lcc_fp(0.0),
                lcc_fp(std_par_1 as f64),
                lcc_fp(std_par_2 as f64),
                Ellipsoid::wgs84(),
            );
            assert!(lcc.is_ok());
        }
    }

    for std_par_1 in 1..90 {
        let std_par_2 = -std_par_1;
        let lcc = LambertConformalConic::new(
            lcc_fp(2.0),
            lcc_fp(0.0),
            lcc_fp(std_par_1 as f64),
            lcc_fp(std_par_2 as f64),
            Ellipsoid::wgs84(),
        );
        assert!(lcc.is_err());
    }
}

#[test]
fn lcc_symmetric_parallels_are_incorrect_params() {
    let lcc = LambertConformalConic::new(
        lcc_fp(2.0),
        lcc_fp(0.0),
        lcc_fp(30.0),
        lcc_fp(-30.0),
        Ellipsoid::wgs84(),
    );
    assert!(matches!(lcc, Err(ProjectionError::IncorrectParams(_))));
}

#[test]
fn lcc_tangent_cone_constant() {
    // Equal standard parallels define the tangent cone whose cone constant
    // is the sine of that single parallel.
    let lcc = LambertConformalConic::new(
        lcc_fp(2.0),
        lcc_fp(0.0),
        lcc_fp(40.0),
        lcc_fp(40.0),
        Ellipsoid::wgs84(),
    )
    .unwrap();
    let expected = 40.0f64.to_radians().sin();
    assert!((lcc_val(lcc.n) - expected).abs() <= 1e-15);
}

#[test]
fn lcc_reference_point() {
    // LCC centered on France with parallels set for Europe, projecting the
    // coordinates of Mont Blanc.
    let lcc = LambertConformalConic::new(
        lcc_fp(2.0),
        lcc_fp(0.0),
        lcc_fp(30.0),
        lcc_fp(60.0),
        Ellipsoid::wgs84(),
    )
    .unwrap();

    let (x, y) = lcc.project(lcc_fp(6.8651), lcc_fp(45.8326)).unwrap();

    assert!((lcc_val(x) - 364836.4407792019).abs() <= 1e-3);
    assert!((lcc_val(y) - 5421073.726335758).abs() <= 1e-3);
}
