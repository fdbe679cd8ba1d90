use std::sync::Arc;

use mappers::projections::AzimuthalEquidistant;
use mappers::{
    inverse_project_batch, inverse_project_batch_unchecked, project_batch,
    project_batch_unchecked, Ellipsoid, Fp, Projection,
};

fn mt_fp(v: f64) -> Fp {
    Fp(v.to_bits())
}

fn mt_val(x: Fp) -> f64 {
    f64::from_bits(x.0)
}

#[test]
fn arc_interop() {
    let proj =
        AzimuthalEquidistant::new(mt_fp(30.0), mt_fp(30.0), Ellipsoid::wgs84()).unwrap();
    let proj = Arc::new(proj);
    let mut results = vec![];

    for _ in 0..10 {
        let proj = Arc::clone(&proj);
        let map_coords = proj.project(mt_fp(25.0), mt_fp(45.0)).unwrap();
        let geo_coords = proj.inverse_project(mt_fp(200_000.0), mt_fp(300_000.0)).unwrap();
        results.push((map_coords, geo_coords));
    }

    for (map_coords, geo_coords) in results {
        assert!((mt_val(map_coords.0) - -398563.2994422894).abs() <= 0.000_000_1);
        assert!((mt_val(map_coords.1) - 1674853.7525355904).abs() <= 0.000_000_1);

        assert!((mt_val(geo_coords.0) - 32.132000374279365).abs() <= 0.000_000_1);
        assert!((mt_val(geo_coords.1) - 32.68850065409422).abs() <= 0.000_000_1);
    }
}

#[test]
fn parallelism_checked() {
    let proj =
        AzimuthalEquidistant::new(mt_fp(30.0), mt_fp(30.0), Ellipsoid::wgs84()).unwrap();

    let coords = vec![(mt_fp(25.0), mt_fp(45.0)); 100];
    let xy_points = vec![(mt_fp(200_000.0), mt_fp(300_000.0)); 100];

    let map_coords = project_batch(&proj, &coords).unwrap();
    let geo_coords = inverse_project_batch(&proj, &xy_points).unwrap();

    for map_coord in map_coords {
        assert!((mt_val(map_coord.0) - -398563.2994422894).abs() <= 0.000_000_1);
        assert!((mt_val(map_coord.1) - 1674853.7525355904).abs() <= 0.000_000_1);
    }

    for geo_coord in geo_coords {
        assert!((mt_val(geo_coord.0) - 32.132000374279365).abs() <= 0.000_000_1);
        assert!((mt_val(geo_coord.1) - 32.68850065409422).abs() <= 0.000_000_1);
    }
}

#[test]
fn parallelism_unchecked() {
    let proj =
        AzimuthalEquidistant::new(mt_fp(30.0), mt_fp(30.0), Ellipsoid::wgs84()).unwrap();

    let coords = vec![(mt_fp(25.0), mt_fp(45.0)); 100];
    let xy_points = vec![(mt_fp(200_000.0), mt_fp(300_000.0)); 100];

    let map_coords = project_batch_unchecked(&proj, &coords);
    let geo_coords = inverse_project_batch_unchecked(&proj, &xy_points);

    for map_coord in map_coords {
        assert!((mt_val(map_coord.0) - -398563.2994422894).abs() <= 0.000_000_1);
        assert!((mt_val(map_coord.1) - 1674853.7525355904).abs() <= 0.000_000_1);
    }

    for geo_coord in geo_coords {
        assert!((mt_val(geo_coord.0) - 32.132000374279365).abs() <= 0.000_000_1);
        assert!((mt_val(geo_coord.1) - 32.68850065409422).abs() <= 0.000_000_1);
    }
}

#[test]
fn parallelism_arc_interop() {
    let proj =
        AzimuthalEquidistant::new(mt_fp(30.0), mt_fp(30.0), Ellipsoid::wgs84()).unwrap();
    let proj = Arc::new(proj);
    let mut results = vec![];

    for _ in 0..10 {
        let proj = Arc::clone(&proj);
        let coords = vec![(mt_fp(25.0), mt_fp(45.0)); 100];
        let xy_points = vec![(mt_fp(200_000.0), mt_fp(300_000.0)); 100];

        let map_coords = project_batch_unchecked(proj.as_ref(), &coords);
        let geo_coords = inverse_project_batch_unchecked(proj.as_ref(), &xy_points);

        results.push((map_coords, geo_coords));
    }

    for (map_coords, geo_coords) in results {
        for map_coord in map_coords {
            assert!((mt_val(map_coord.0) - -398563.2994422894).abs() <= 0.000_000_1);
            assert!((mt_val(map_coord.1) - 1674853.7525355904).abs() <= 0.000_000_1);
        }

        for geo_coord in geo_coords {
            assert!((mt_val(geo_coord.0) - 32.132000374279365).abs() <= 0.000_000_1);
            assert!((mt_val(geo_coord.1) - 32.68850065409422).abs() <= 0.000_000_1);
        }
    }
}
