use mappers::projections::{AzimuthalEquidistant, LambertConformalConic, LongitudeLatitude};
use mappers::{Ellipsoid, Fp, Projection};

const TOLERANCE: f64 = 1e-5;

fn conv_fp(v: f64) -> Fp {
    Fp(v.to_bits())
}

fn conv_val(x: Fp) -> f64 {
    f64::from_bits(x.0)
}

#[test]
fn conversion_api_and_correctness() {
    let ll = LongitudeLatitude;
    let lcc = LambertConformalConic::new(
        conv_fp(30.0),
        conv_fp(30.0),
        conv_fp(30.0),
        conv_fp(60.0),
        Ellipsoid::wgs84(),
    )
    .unwrap();
    let aeqd =
        AzimuthalEquidistant::new(conv_fp(30.0), conv_fp(30.0), Ellipsoid::wgs84()).unwrap();

    let (lon, lat) = (conv_fp(25.0), conv_fp(45.0));
    let (lcc_x, lcc_y) = lcc.project(lon, lat).unwrap();
    let (aeqd_x, aeqd_y) = aeqd.project(lon, lat).unwrap();

    let (test_lcc_x, test_lcc_y) = ll.pipe_to(&lcc).convert(lon, lat).unwrap();
    let (test_aeqd_x, test_aeqd_y) = lcc.pipe_to(&aeqd).convert(test_lcc_x, test_lcc_y).unwrap();
    let (test_lon, test_lat) = aeqd.pipe_to(&ll).convert(test_aeqd_x, test_aeqd_y).unwrap();

    assert!((conv_val(lcc_x) - conv_val(test_lcc_x)).abs() <= TOLERANCE);
    assert!((conv_val(lcc_y) - conv_val(test_lcc_y)).abs() <= TOLERANCE);
    assert!((conv_val(aeqd_x) - conv_val(test_aeqd_x)).abs() <= TOLERANCE);
    assert!((conv_val(aeqd_y) - conv_val(test_aeqd_y)).abs() <= TOLERANCE);
    assert!((conv_val(lon) - conv_val(test_lon)).abs() <= TOLERANCE);
    assert!((conv_val(lat) - conv_val(test_lat)).abs() <= TOLERANCE);
}

#[test]
fn inverted_pipe_converts_back() {
    let lcc = LambertConformalConic::new(
        conv_fp(30.0),
        conv_fp(30.0),
        conv_fp(30.0),
        conv_fp(60.0),
        Ellipsoid::wgs84(),
    )
    .unwrap();
    let aeqd =
        AzimuthalEquidistant::new(conv_fp(30.0), conv_fp(30.0), Ellipsoid::wgs84()).unwrap();

    let (lcc_x, lcc_y) = lcc.project(conv_fp(25.0), conv_fp(45.0)).unwrap();

    let pipe = lcc.pipe_to(&aeqd);
    let (aeqd_x, aeqd_y) = pipe.convert(lcc_x, lcc_y).unwrap();
    let (back_x, back_y) = pipe.invert().convert(aeqd_x, aeqd_y).unwrap();

    assert!((conv_val(back_x) - conv_val(lcc_x)).abs() <= TOLERANCE);
    assert!((conv_val(back_y) - conv_val(lcc_y)).abs() <= TOLERANCE);
}
