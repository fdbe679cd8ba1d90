//! The azimuthal equidistant projection (geodesic-based).

use crate::ellipsoids::Ellipsoid;
use crate::errors::{ParamName, ProjectionError};
use crate::fp::{
    atan2_bits, cos_bits, deg_bits, hypot_bits, in_lat_range_bits, in_lon_range_bits,
    is_finite_bits, mul_bits, rad_bits, sin_bits, Fp,
};
use crate::geodesic::{geod_direct, geod_direct_bits, geod_inverse, geod_inverse_bits};
use crate::{ConversionPipe, Projection};
use vstd::prelude::*;

verus! {

/// The azimuthal equidistant projection is an azimuthal map projection. It
/// has the useful properties that all points on the map are at
/// proportionally correct distances from the center point, and that all
/// points on the map are at the correct azimuth (direction) from the center
/// point. A useful application for this type of projection is a polar
/// projection which shows all meridians as straight, with distances from
/// the pole represented correctly.
///
/// This projection delegates the distance and azimuth computations between
/// the projected point and the origin to an ellipsoidal geodesic solver
/// (Karney's algorithms), so it might be slower than other projections but
/// is exact for any ellipsoid.
///
/// Summary by Snyder (1987):
///
/// - Azimuthal.
/// - Distances measured from the center are true.
/// - Distances not measured along radii from the center are not correct.
/// - The center of projection is the only point without distortion.
/// - Directions from the center are true (except on some oblique and
///   equatorial ellipsoidal forms).
/// - Neither equal-area nor conformal.
/// - Used in the polar aspect for world maps and maps of polar hemispheres.
/// - Used in the oblique aspect for atlas maps of continents and world maps
///   for aviation and radio use.
/// - Known for many centuries in the polar aspect.
#[derive(Copy, Clone, PartialEq, Eq, Structural, Debug)]
pub struct AzimuthalEquidistant {
    /// Reference longitude, in degrees (the solver works in degrees).
    pub lon_0: Fp,
    /// Reference latitude, in degrees.
    pub lat_0: Fp,
    /// The reference ellipsoid, whose semi-major axis and flattening define
    /// the geodesic solver.
    pub ellps: Ellipsoid,
}

/// The projection value derived from validated parameters: the references
/// stay in degrees, and the ellipsoid's (semi-major axis, flattening) pair
/// is what the geodesic solver is configured with.
pub open spec fn aeqd_from_params(ref_lon: u64, ref_lat: u64, ellps: Ellipsoid) -> AzimuthalEquidistant {
    AzimuthalEquidistant { lon_0: Fp(ref_lon), lat_0: Fp(ref_lat), ellps }
}

/// Everything the constructor does: the first violated validation rule's
/// error, or the projection value.
pub open spec fn aeqd_new_spec(ref_lon: u64, ref_lat: u64, ellps: Ellipsoid) -> Result<
    AzimuthalEquidistant,
    ProjectionError,
> {
    if !is_finite_bits(ref_lon) {
        Err(ProjectionError::ParamNotFinite(ParamName::RefLon))
    } else if !is_finite_bits(ref_lat) {
        Err(ProjectionError::ParamNotFinite(ParamName::RefLat))
    } else if !in_lon_range_bits(ref_lon) {
        Err(ProjectionError::ParamOutOfRange(ParamName::RefLon, -180i32, 180i32))
    } else if !in_lat_range_bits(ref_lat) {
        Err(ProjectionError::ParamOutOfRange(ParamName::RefLat, -90i32, 90i32))
    } else {
        Ok(aeqd_from_params(ref_lon, ref_lat, ellps))
    }
}

impl AzimuthalEquidistant {
    /// Azimuthal equidistant projection constructor.
    ///
    /// # Arguments
    ///
    /// - `ref_lon`, `ref_lat` - Reference longitude and latitude, in
    ///   degrees. Point (0, 0) on the map will be at these coordinates.
    /// - `ellps` - Reference [`Ellipsoid`].
    ///
    /// # Errors
    ///
    /// Returns [`ProjectionError::ParamNotFinite`] when a reference
    /// coordinate is NaN or infinite, and
    /// [`ProjectionError::ParamOutOfRange`] when the longitude is not
    /// within -180..180 or the latitude is not within -90..90.
    pub fn new(ref_lon: Fp, ref_lat: Fp, ellps: Ellipsoid) -> (r: Result<Self, ProjectionError>)
        ensures
            r == aeqd_new_spec(ref_lon.0, ref_lat.0, ellps),
    {
        if !ref_lon.is_finite() {
            return Err(ProjectionError::ParamNotFinite(ParamName::RefLon));
        }
        if !ref_lat.is_finite() {
            return Err(ProjectionError::ParamNotFinite(ParamName::RefLat));
        }
        if !ref_lon.in_lon_range() {
            return Err(ProjectionError::ParamOutOfRange(ParamName::RefLon, -180i32, 180i32));
        }
        if !ref_lat.in_lat_range() {
            return Err(ProjectionError::ParamOutOfRange(ParamName::RefLat, -90i32, 90i32));
        }
        Ok(AzimuthalEquidistant { lon_0: ref_lon, lat_0: ref_lat, ellps })
    }

    /// Builds a [`ConversionPipe`] from this projection into `target`
    /// without performing any transform.
    pub fn pipe_to<T: Projection>(&self, target: &T) -> (r: ConversionPipe<
        AzimuthalEquidistant,
        T,
    >)
        ensures
            r.source == *self,
            r.target == *target,
    {
        ConversionPipe::new(*self, *target)
    }
}

/// Construction succeeds for every finite reference longitude in [-180,
/// 180) and reference latitude in [-90, 90).
pub proof fn lemma_aeqd_construction_succeeds(ref_lon: u64, ref_lat: u64, ellps: Ellipsoid)
    requires
        is_finite_bits(ref_lon),
        is_finite_bits(ref_lat),
        in_lon_range_bits(ref_lon),
        in_lat_range_bits(ref_lat),
    ensures
        aeqd_new_spec(ref_lon, ref_lat, ellps) == Ok::<AzimuthalEquidistant, ProjectionError>(
            aeqd_from_params(ref_lon, ref_lat, ellps),
        ),
{
}

/// A finite reference coordinate outside its canonical interval is rejected
/// with a range error.
pub proof fn lemma_aeqd_out_of_range_rejected(ref_lon: u64, ref_lat: u64, ellps: Ellipsoid)
    requires
        is_finite_bits(ref_lon),
        is_finite_bits(ref_lat),
        !(in_lon_range_bits(ref_lon) && in_lat_range_bits(ref_lat)),
    ensures
        aeqd_new_spec(ref_lon, ref_lat, ellps) matches Err(
            ProjectionError::ParamOutOfRange(_, _, _),
        ),
{
}

/// The forward transform: the solver's inverse problem from the reference
/// point to the input point gives the distance and azimuth, resolved into
/// `x = s sin(az)`, `y = s cos(az)`.
pub open spec fn aeqd_fwd(p: AzimuthalEquidistant, lon: u64, lat: u64) -> (u64, u64) {
    let (s12, azi1) = geod_inverse_bits(p.ellps.A.0, p.ellps.F.0, p.lat_0.0, p.lon_0.0, lat, lon);
    (mul_bits(s12, sin_bits(rad_bits(azi1))), mul_bits(s12, cos_bits(rad_bits(azi1))))
}

/// The inverse transform: the azimuth and distance recovered from the
/// planar pair feed the solver's direct problem from the reference point.
pub open spec fn aeqd_inv(p: AzimuthalEquidistant, x: u64, y: u64) -> (u64, u64) {
    let azi1 = deg_bits(atan2_bits(x, y));
    let s12 = hypot_bits(x, y);
    let (lat, lon) = geod_direct_bits(p.ellps.A.0, p.ellps.F.0, p.lat_0.0, p.lon_0.0, azi1, s12);
    (lon, lat)
}

impl Projection for AzimuthalEquidistant {
    open spec fn fwd_spec(self, lon: u64, lat: u64) -> (u64, u64) {
        aeqd_fwd(self, lon, lat)
    }

    open spec fn inv_spec(self, x: u64, y: u64) -> (u64, u64) {
        aeqd_inv(self, x, y)
    }

    fn project_unchecked(&self, lon: Fp, lat: Fp) -> (r: (Fp, Fp)) {
        let (s12, azi1) = geod_inverse(
            self.ellps.A,
            self.ellps.F,
            self.lat_0,
            self.lon_0,
            lat,
            lon,
        );

        let x = s12.mul(azi1.to_radians().sin());
        let y = s12.mul(azi1.to_radians().cos());

        (x, y)
    }

    fn inverse_project_unchecked(&self, x: Fp, y: Fp) -> (r: (Fp, Fp)) {
        let azi1 = x.atan2(y).to_degrees();
        let s12 = x.hypot(y);

        let (lat, lon) = geod_direct(
            self.ellps.A,
            self.ellps.F,
            self.lat_0,
            self.lon_0,
            azi1,
            s12,
        );

        (lon, lat)
    }
}

} // verus!
