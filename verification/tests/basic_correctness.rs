use mappers::projections::ModifiedAzimuthalEquidistant;
use mappers::{Ellipsoid, Fp, Projection};

fn mae_fp(v: f64) -> Fp {
    Fp(v.to_bits())
}

fn mae_val(x: Fp) -> f64 {
    f64::from_bits(x.0)
}

#[test]
fn modified_azimuthal_equidistant() {
    // This projection has to be tested with the numerical example provided
    // in Snyder as it is not implemented in Proj.
    let proj = ModifiedAzimuthalEquidistant::new(
        mae_fp(145.741_658_9),
        mae_fp(15.184_911_94),
        Ellipsoid::clarke1866(),
    )
    .unwrap();

    let (x, y) = proj.project(mae_fp(145.793_030_0), mae_fp(15.246_525_83)).unwrap();

    let ref_x = 34_176.20 - 28_657.52;
    let ref_y = 74_017.88 - 67_199.99;

    // Because the numerical example in Snyder gives
    // very low precision the epsilon must be big
    assert!((mae_val(x) - ref_x).abs() <= 0.01);
    assert!((mae_val(y) - ref_y).abs() <= 0.01);

    let (lon, lat) = proj.inverse_project(mae_fp(ref_x), mae_fp(ref_y)).unwrap();

    let ref_lon = 145.793_030_0;
    let ref_lat = 15.246_525_8;

    // Because the numerical example in Snyder gives
    // very low precision the epsilon must be big
    assert!((mae_val(lon) - ref_lon).abs() <= 0.000_000_1);
    assert!((mae_val(lat) - ref_lat).abs() <= 0.000_000_1);
}
