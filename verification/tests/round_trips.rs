use mappers::projections::{
    AzimuthalEquidistant, EquidistantCylindrical, LambertConformalConic, LongitudeLatitude,
    ModifiedAzimuthalEquidistant, ObliqueLonLat,
};
use mappers::{Ellipsoid, Fp, Projection};

const RT_TOLERANCE: f64 = 1e-6;

fn rt_fp(v: f64) -> Fp {
    Fp(v.to_bits())
}

fn rt_val(x: Fp) -> f64 {
    f64::from_bits(x.0)
}

fn rt_round_trip<P: Projection>(proj: &P, lon: f64, lat: f64) {
    let (x, y) = proj.project(rt_fp(lon), rt_fp(lat)).unwrap();
    let (lon_back, lat_back) = proj.inverse_project(x, y).unwrap();
    assert!((rt_val(lon_back) - lon).abs() <= RT_TOLERANCE);
    assert!((rt_val(lat_back) - lat).abs() <= RT_TOLERANCE);
}

#[test]
fn round_trips_at_mid_latitudes() {
    let lcc = LambertConformalConic::new(
        rt_fp(30.0),
        rt_fp(30.0),
        rt_fp(30.0),
        rt_fp(60.0),
        Ellipsoid::wgs84(),
    )
    .unwrap();
    rt_round_trip(&lcc, 31.48, 31.26);
    rt_round_trip(&lcc, 26.99, 32.50);

    // The southern-aspect cone has a negative cone constant, exercising the
    // sign adjustment of the inverse transform.
    let lcc_south = LambertConformalConic::new(
        rt_fp(30.0),
        rt_fp(-30.0),
        rt_fp(-30.0),
        rt_fp(-60.0),
        Ellipsoid::wgs84(),
    )
    .unwrap();
    rt_round_trip(&lcc_south, 31.48, -31.26);
    rt_round_trip(&lcc_south, 26.99, -32.50);

    let aeqd =
        AzimuthalEquidistant::new(rt_fp(30.0), rt_fp(30.0), Ellipsoid::wgs84()).unwrap();
    rt_round_trip(&aeqd, 31.48, 31.26);
    rt_round_trip(&aeqd, 28.55, 28.72);

    let mae = ModifiedAzimuthalEquidistant::new(rt_fp(30.0), rt_fp(30.0), Ellipsoid::wgs84())
        .unwrap();
    rt_round_trip(&mae, 30.2, 30.1);

    let eqc = EquidistantCylindrical::new(rt_fp(10.0), rt_fp(20.0), rt_fp(15.0)).unwrap();
    rt_round_trip(&eqc, 45.0, 45.0);
    rt_round_trip(&eqc, -135.0, -45.0);

    let oll = ObliqueLonLat::new(rt_fp(60.0), rt_fp(30.0), Some(rt_fp(-15.0))).unwrap();
    rt_round_trip(&oll, 45.0, 45.0);
    rt_round_trip(&oll, -135.0, -45.0);

    let ll = LongitudeLatitude;
    rt_round_trip(&ll, 12.34, -56.78);
}

#[test]
fn lcc_tangent_round_trips_across_ellipsoids() {
    let ellipsoids = [
        Ellipsoid::wgs84(),
        Ellipsoid::grs80(),
        Ellipsoid::wgs72(),
        Ellipsoid::grs67(),
        Ellipsoid::airy1830(),
        Ellipsoid::wgs66(),
        Ellipsoid::wgs60(),
        Ellipsoid::clarke1866(),
        Ellipsoid::sphere(),
    ];
    for ellps in ellipsoids {
        let lcc = LambertConformalConic::new(
            rt_fp(30.0),
            rt_fp(30.0),
            rt_fp(40.0),
            rt_fp(40.0),
            ellps,
        )
        .unwrap();
        rt_round_trip(&lcc, 31.48, 31.26);
        rt_round_trip(&lcc, 28.51, 31.26);
        rt_round_trip(&lcc, 33.00, 32.50);
    }
}

#[test]
fn identity_projection_is_exact() {
    let ll = LongitudeLatitude;
    let (x, y) = ll.project(rt_fp(12.34), rt_fp(-56.78)).unwrap();
    assert_eq!(x.0, 12.34f64.to_bits());
    assert_eq!(y.0, (-56.78f64).to_bits());
    let (lon, lat) = ll.inverse_project(x, y).unwrap();
    assert_eq!(lon.0, x.0);
    assert_eq!(lat.0, y.0);
}

#[test]
fn repeated_calls_are_bit_identical() {
    let lcc = LambertConformalConic::new(
        rt_fp(2.0),
        rt_fp(0.0),
        rt_fp(30.0),
        rt_fp(60.0),
        Ellipsoid::wgs84(),
    )
    .unwrap();
    let shared = &lcc;

    let first = shared.project(rt_fp(6.8651), rt_fp(45.8326)).unwrap();
    for _ in 0..10 {
        let again = shared.project(rt_fp(6.8651), rt_fp(45.8326)).unwrap();
        assert_eq!(first.0.0, again.0.0);
        assert_eq!(first.1.0, again.1.0);
    }

    let inv_first = shared.inverse_project(first.0, first.1).unwrap();
    for _ in 0..10 {
        let again = shared.inverse_project(first.0, first.1).unwrap();
        assert_eq!(inv_first.0.0, again.0.0);
        assert_eq!(inv_first.1.0, again.1.0);
    }
}

#[test]
fn mae_point_on_reference_meridian_uses_direct_branch() {
    // A point due north of the reference shares its longitude, so the sine
    // of the azimuth vanishes and the direct-angle branch computes the arc.
    let mae = ModifiedAzimuthalEquidistant::new(
        rt_fp(145.741_658_9),
        rt_fp(15.184_911_94),
        Ellipsoid::clarke1866(),
    )
    .unwrap();
    let (x, y) = mae.project(rt_fp(145.741_658_9), rt_fp(15.25)).unwrap();
    // Due north: no eastward offset, a positive northward offset of roughly
    // 65 mm per microdegree of latitude difference.
    assert!(rt_val(x).abs() <= 1e-6);
    assert!(rt_val(y) > 7000.0 && rt_val(y) < 7300.0);

    let (lon_back, lat_back) = mae.inverse_project(x, y).unwrap();
    assert!((rt_val(lon_back) - 145.741_658_9).abs() <= RT_TOLERANCE);
    assert!((rt_val(lat_back) - 15.25).abs() <= RT_TOLERANCE);
}

#[test]
fn ellipsoid_constants_match_their_defining_formula() {
    let wgs84 = Ellipsoid::wgs84();
    assert_eq!(f64::from_bits(wgs84.A.0), 6_378_137.0);
    let expected_f: f64 = 1.0 / 298.257_223_563;
    let expected_b: f64 = 6_378_137.0 - 6_378_137.0 / 298.257_223_563;
    let expected_e: f64 = (1.0 - (expected_b * expected_b) / (6_378_137.0 * 6_378_137.0)).sqrt();
    assert_eq!(f64::from_bits(wgs84.F.0), expected_f);
    assert_eq!(f64::from_bits(wgs84.B.0), expected_b);
    assert_eq!(f64::from_bits(wgs84.E.0), expected_e);

    let sphere = Ellipsoid::sphere();
    assert_eq!(f64::from_bits(sphere.A.0), 6_370_997.0);
    assert_eq!(f64::from_bits(sphere.B.0), 6_370_997.0);
    assert_eq!(f64::from_bits(sphere.E.0), 0.0);
    assert_eq!(f64::from_bits(sphere.F.0), 0.0);

    let clarke = Ellipsoid::clarke1866();
    assert_eq!(f64::from_bits(clarke.A.0), 6_378_206.4);
    assert_eq!(f64::from_bits(clarke.F.0), 1.0 / 294.978_698_2);
}
