use mappers::projections::LambertConformalConic;
use mappers::{Ellipsoid, Fp, Projection};

fn gt_fp(v: f64) -> Fp {
    Fp(v.to_bits())
}

fn gt_val(x: Fp) -> f64 {
    f64::from_bits(x.0)
}

#[test]
fn general_test_test_projection() {
    let lcc = LambertConformalConic::new(
        gt_fp(18.0),
        gt_fp(0.0),
        gt_fp(30.0),
        gt_fp(60.0),
        Ellipsoid::wgs84(),
    )
    .unwrap();

    let (ref_lon, ref_lat) = (18.58973722443749, 54.41412855026378);

    let (x, y) = lcc.project(gt_fp(ref_lon), gt_fp(ref_lat)).unwrap();
    let (lon, lat) = lcc.inverse_project(x, y).unwrap();

    assert!(gt_val(lon) - ref_lon < 0.000001);
    assert!(gt_val(lat) - ref_lat < 0.000001);
}
