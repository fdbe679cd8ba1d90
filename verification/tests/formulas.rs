use mappers::projections::{EquidistantCylindrical, ObliqueLonLat};
use mappers::{Fp, Projection};

fn fm_fp(v: f64) -> Fp {
    Fp(v.to_bits())
}

fn fm_val(x: Fp) -> f64 {
    f64::from_bits(x.0)
}

#[test]
fn eqc_forward_matches_formula() {
    let eqc = EquidistantCylindrical::new(fm_fp(10.0), fm_fp(20.0), fm_fp(30.0)).unwrap();
    let (x, y) = eqc.project(fm_fp(25.0), fm_fp(55.0)).unwrap();

    let r = 6_370_997.0f64;
    let expected_x =
        r * 30.0f64.to_radians().cos() * (25.0f64.to_radians() - 10.0f64.to_radians());
    let expected_y = r * (55.0f64.to_radians() - 20.0f64.to_radians());

    assert!((fm_val(x) - expected_x).abs() <= 1e-6);
    assert!((fm_val(y) - expected_y).abs() <= 1e-6);

    let (lon, lat) = eqc.inverse_project(x, y).unwrap();
    let expected_lon = (fm_val(x) / (r * 30.0f64.to_radians().cos()) + 10.0f64.to_radians())
        .to_degrees();
    let expected_lat = (fm_val(y) / r + 20.0f64.to_radians()).to_degrees();
    assert!((fm_val(lon) - expected_lon).abs() <= 1e-9);
    assert!((fm_val(lat) - expected_lat).abs() <= 1e-9);
}

#[test]
fn oblique_rotation_matches_formula() {
    let pole_lon = 60.0f64;
    let pole_lat = 30.0f64;
    let central_lon = -15.0f64;
    let oll = ObliqueLonLat::new(fm_fp(pole_lon), fm_fp(pole_lat), Some(fm_fp(central_lon)))
        .unwrap();

    let (point_lon, point_lat) = (45.0f64, 45.0f64);
    let (x, y) = oll.project(fm_fp(point_lon), fm_fp(point_lat)).unwrap();

    // Snyder's formulas 5-7 and 5-8b, evaluated directly.
    let lambda = (point_lon - central_lon).to_radians();
    let phi = point_lat.to_radians();
    let (sin_pp, cos_pp) = (pole_lat.to_radians().sin(), pole_lat.to_radians().cos());
    let lambda_prime = (phi.cos() * lambda.sin())
        .atan2(sin_pp * phi.cos() * lambda.cos() + cos_pp * phi.sin())
        + pole_lon.to_radians();
    let phi_prime = (sin_pp * phi.sin() - cos_pp * phi.cos() * lambda.cos()).asin();

    let mut expected_x = lambda_prime.to_degrees();
    if expected_x > 180.0 {
        expected_x -= 360.0;
    } else if expected_x < -180.0 {
        expected_x += 360.0;
    }
    let expected_y = phi_prime.to_degrees();

    assert!((fm_val(x) - expected_x).abs() <= 1e-9);
    assert!((fm_val(y) - expected_y).abs() <= 1e-9);
}

#[test]
fn oblique_output_is_longitude_wrapped() {
    // A pole longitude near the date line pushes the rotated longitude out
    // of range, so the normalization step must bring it back into
    // (-180, 180].
    let oll = ObliqueLonLat::new(fm_fp(179.0), fm_fp(10.0), None).unwrap();
    for lon in [-170, -60, 0, 60, 170] {
        for lat in [-60, 0, 60] {
            let (x, y) = oll.project(fm_fp(lon as f64), fm_fp(lat as f64)).unwrap();
            assert!(fm_val(x) > -180.0 && fm_val(x) <= 180.0);
            assert!(fm_val(y) >= -90.0 && fm_val(y) <= 90.0);
        }
    }
}
