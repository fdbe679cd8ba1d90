use mappers::projections::LambertConformalConic;
use mappers::{Ellipsoid, Fp, Projection};

fn it_fp(v: f64) -> Fp {
    Fp(v.to_bits())
}

fn it_val(x: Fp) -> f64 {
    f64::from_bits(x.0)
}

#[test]
fn interface_test_test_projection() {
    let lcc = LambertConformalConic::new(
        it_fp(18.0),
        it_fp(0.0),
        it_fp(30.0),
        it_fp(60.0),
        Ellipsoid::wgs84(),
    )
    .unwrap();

    let (ref_lon, ref_lat) = (18.58973722443749, 54.41412855026378);

    let (x, y) = lcc.project(it_fp(ref_lon), it_fp(ref_lat)).unwrap();
    let (lon, lat) = lcc.inverse_project(x, y).unwrap();

    assert!((it_val(lon) - ref_lon).abs() <= 0.000_000_000_01);
    assert!((it_val(lat) - ref_lat).abs() <= 0.000_000_000_01);
}
