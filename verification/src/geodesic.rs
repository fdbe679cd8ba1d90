//! Trusted access to the external ellipsoidal geodesic solver.
//!
//! The azimuthal equidistant projection delegates the geodesic direct and
//! inverse problems to geographiclib. Both solutions are pure functions of
//! the ellipsoid's defining pair (semi-major axis and flattening) and the
//! given coordinates, so each is named by an uninterpreted spec function and
//! produced by exactly one wrapper.

use const_soft_float::soft_f64::SoftF64;
use crate::fp::Fp;
use geographiclib_rs::{DirectGeodesic, Geodesic, InverseGeodesic};
use vstd::prelude::*;

verus! {

/// The solution of the inverse geodesic problem on the ellipsoid with
/// semi-major axis `a` and flattening `f` (bit patterns): the distance in
/// meters and the azimuth at point 1 in degrees, for the two points given in
/// degrees.
pub uninterp spec fn geod_inverse_bits(
    a: u64,
    f: u64,
    lat1: u64,
    lon1: u64,
    lat2: u64,
    lon2: u64,
) -> (u64, u64);

/// The solution of the direct geodesic problem on the ellipsoid with
/// semi-major axis `a` and flattening `f` (bit patterns): the latitude and
/// longitude in degrees of the point at the given azimuth (degrees) and
/// distance (meters) from point 1 (degrees).
pub uninterp spec fn geod_direct_bits(
    a: u64,
    f: u64,
    lat1: u64,
    lon1: u64,
    azi1: u64,
    s12: u64,
) -> (u64, u64);

/// Relies on geographiclib's Geodesic::new and InverseGeodesic::inverse: the
/// solver is configured by the (semi-major axis, flattening) pair alone, and
/// the returned distance and azimuth at point 1 are functions of that pair
/// and the two points.
#[verifier::external_body]
pub(crate) fn geod_inverse(a: Fp, f: Fp, lat1: Fp, lon1: Fp, lat2: Fp, lon2: Fp) -> (r: (Fp, Fp))
    ensures
        (r.0.0, r.1.0) == geod_inverse_bits(a.0, f.0, lat1.0, lon1.0, lat2.0, lon2.0),
{
    let geod = Geodesic::new(SoftF64::from_bits(a.0).to_f64(), SoftF64::from_bits(f.0).to_f64());
    let (s12, azi1, _, _) = geod.inverse(
        SoftF64::from_bits(lat1.0).to_f64(),
        SoftF64::from_bits(lon1.0).to_f64(),
        SoftF64::from_bits(lat2.0).to_f64(),
        SoftF64::from_bits(lon2.0).to_f64(),
    );
    (Fp(s12.to_bits()), Fp(azi1.to_bits()))
}

/// Relies on geographiclib's Geodesic::new and DirectGeodesic::direct: the
/// solver is configured by the (semi-major axis, flattening) pair alone, and
/// the returned destination latitude and longitude are functions of that
/// pair, the starting point, the azimuth and the distance.
#[verifier::external_body]
pub(crate) fn geod_direct(a: Fp, f: Fp, lat1: Fp, lon1: Fp, azi1: Fp, s12: Fp) -> (r: (Fp, Fp))
    ensures
        (r.0.0, r.1.0) == geod_direct_bits(a.0, f.0, lat1.0, lon1.0, azi1.0, s12.0),
{
    let geod = Geodesic::new(SoftF64::from_bits(a.0).to_f64(), SoftF64::from_bits(f.0).to_f64());
    let (lat2, lon2) = geod.direct(
        SoftF64::from_bits(lat1.0).to_f64(),
        SoftF64::from_bits(lon1.0).to_f64(),
        SoftF64::from_bits(azi1.0).to_f64(),
        SoftF64::from_bits(s12.0).to_f64(),
    );
    (Fp(lat2.to_bits()), Fp(lon2.to_bits()))
}

} // verus!
