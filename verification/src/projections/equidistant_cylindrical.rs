//! The equidistant cylindrical (equirectangular) projection.

use crate::errors::{ParamName, ProjectionError};
use crate::ellipsoids::SPHERE_RADIUS_BITS;
use crate::fp::{
    add_bits, cos_bits, deg_bits, div_bits, in_lat_range_bits, in_lon_range_bits,
    is_finite_bits, mul_bits, rad_bits, sub_bits, Fp,
};
use crate::{ConversionPipe, Projection};
use vstd::prelude::*;

verus! {

/// The equirectangular projection (also called the equidistant cylindrical
/// projection), which includes the special case of the plate carree
/// projection, is a simple map projection attributed to Marinus of Tyre.
///
/// Summary by Snyder (1987):
///
/// - Cylindrical.
/// - Neither equal-area nor conformal.
/// - Meridians and parallels are equidistant straight lines, intersecting at
///   right angles.
/// - Poles shown as lines.
/// - Used for world or regional maps.
/// - Very simple construction.
/// - Used only in spherical form.
/// - Presented by Eratosthenes (B.C.) or Marinus (A.D. 100).
#[derive(Copy, Clone, PartialEq, Eq, Structural, Debug)]
pub struct EquidistantCylindrical {
    /// Reference latitude, in radians.
    pub ref_lat: Fp,
    /// Reference longitude, in radians.
    pub ref_lon: Fp,
    /// Standard parallel, in radians.
    pub std_par: Fp,
    /// The fixed spherical radius, in meters.
    pub r: Fp,
    /// The precomputed product of the radius and the cosine of the standard
    /// parallel.
    pub r_time_par_cos: Fp,
}

/// The projection value derived from canonical parameters (degrees): the
/// references in radians, the fixed spherical radius, and the precomputed
/// product of the radius and the cosine of the standard parallel.
pub open spec fn eqc_from_params(ref_lon: u64, ref_lat: u64, std_par: u64) -> EquidistantCylindrical {
    EquidistantCylindrical {
        ref_lat: Fp(rad_bits(ref_lat)),
        ref_lon: Fp(rad_bits(ref_lon)),
        std_par: Fp(rad_bits(std_par)),
        r: Fp(SPHERE_RADIUS_BITS),
        r_time_par_cos: Fp(mul_bits(SPHERE_RADIUS_BITS, cos_bits(rad_bits(std_par)))),
    }
}

/// Everything the constructor does: the first violated validation rule's
/// error, or the fully derived projection value.
pub open spec fn eqc_new_spec(ref_lon: u64, ref_lat: u64, std_par: u64) -> Result<
    EquidistantCylindrical,
    ProjectionError,
> {
    if !is_finite_bits(ref_lon) {
        Err(ProjectionError::ParamNotFinite(ParamName::RefLon))
    } else if !is_finite_bits(ref_lat) {
        Err(ProjectionError::ParamNotFinite(ParamName::RefLat))
    } else if !is_finite_bits(std_par) {
        Err(ProjectionError::ParamNotFinite(ParamName::StdPar))
    } else if !in_lon_range_bits(ref_lon) {
        Err(ProjectionError::ParamOutOfRange(ParamName::RefLon, -180i32, 180i32))
    } else if !in_lat_range_bits(ref_lat) {
        Err(ProjectionError::ParamOutOfRange(ParamName::RefLat, -90i32, 90i32))
    } else if !in_lat_range_bits(std_par) {
        Err(ProjectionError::ParamOutOfRange(ParamName::StdPar, -90i32, 90i32))
    } else {
        Ok(eqc_from_params(ref_lon, ref_lat, std_par))
    }
}

impl EquidistantCylindrical {
    /// Equirectangular projection constructor.
    ///
    /// To reduce computational overhead of projection functions this
    /// constructor precomputes what the transforms reuse; only one instance
    /// should be created and copied or borrowed as needed.
    ///
    /// An ellipsoid is not definable as this projection is only defined for
    /// the sphere. If the standard parallel and the reference longitude and
    /// latitude are 0, this projection becomes the plate carree projection.
    ///
    /// # Arguments
    ///
    /// - `ref_lon`, `ref_lat` - Reference longitude and latitude, in
    ///   degrees. Point (0, 0) on the map will be at these coordinates.
    /// - `std_par` - Standard parallel (latitude, degrees) along which the
    ///   scale is true.
    ///
    /// # Errors
    ///
    /// Returns [`ProjectionError::ParamNotFinite`] when an argument is NaN
    /// or infinite, and [`ProjectionError::ParamOutOfRange`] when a
    /// longitude is not within -180..180 or a latitude is not within
    /// -90..90.
    pub fn new(ref_lon: Fp, ref_lat: Fp, std_par: Fp) -> (r: Result<Self, ProjectionError>)
        ensures
            r == eqc_new_spec(ref_lon.0, ref_lat.0, std_par.0),
    {
        if !ref_lon.is_finite() {
            return Err(ProjectionError::ParamNotFinite(ParamName::RefLon));
        }
        if !ref_lat.is_finite() {
            return Err(ProjectionError::ParamNotFinite(ParamName::RefLat));
        }
        if !std_par.is_finite() {
            return Err(ProjectionError::ParamNotFinite(ParamName::StdPar));
        }
        if !ref_lon.in_lon_range() {
            return Err(ProjectionError::ParamOutOfRange(ParamName::RefLon, -180i32, 180i32));
        }
        if !ref_lat.in_lat_range() {
            return Err(ProjectionError::ParamOutOfRange(ParamName::RefLat, -90i32, 90i32));
        }
        if !std_par.in_lat_range() {
            return Err(ProjectionError::ParamOutOfRange(ParamName::StdPar, -90i32, 90i32));
        }
        let r = Fp(SPHERE_RADIUS_BITS);
        let r_time_par_cos = r.mul(std_par.to_radians().cos());
        Ok(
            EquidistantCylindrical {
                ref_lat: ref_lat.to_radians(),
                ref_lon: ref_lon.to_radians(),
                std_par: std_par.to_radians(),
                r,
                r_time_par_cos,
            },
        )
    }

    /// Builds a [`ConversionPipe`] from this projection into `target`
    /// without performing any transform.
    pub fn pipe_to<T: Projection>(&self, target: &T) -> (r: ConversionPipe<
        EquidistantCylindrical,
        T,
    >)
        ensures
            r.source == *self,
            r.target == *target,
    {
        ConversionPipe::new(*self, *target)
    }
}

/// The forward transform: `x = r*cos(std_par) * (lon - ref_lon)` and
/// `y = r * (lat - ref_lat)`, all angles in radians.
pub open spec fn eqc_fwd(p: EquidistantCylindrical, lon: u64, lat: u64) -> (u64, u64) {
    (
        mul_bits(p.r_time_par_cos.0, sub_bits(rad_bits(lon), p.ref_lon.0)),
        mul_bits(p.r.0, sub_bits(rad_bits(lat), p.ref_lat.0)),
    )
}

/// The inverse transform: the algebraic reversal of the forward one,
/// `lon = x/(r*cos(std_par)) + ref_lon` and `lat = y/r + ref_lat`, converted
/// back to degrees.
pub open spec fn eqc_inv(p: EquidistantCylindrical, x: u64, y: u64) -> (u64, u64) {
    (
        deg_bits(add_bits(div_bits(x, p.r_time_par_cos.0), p.ref_lon.0)),
        deg_bits(add_bits(div_bits(y, p.r.0), p.ref_lat.0)),
    )
}

/// Construction succeeds for every finite reference longitude in [-180,
/// 180) and reference latitude and standard parallel in [-90, 90).
pub proof fn lemma_eqc_construction_succeeds(ref_lon: u64, ref_lat: u64, std_par: u64)
    requires
        is_finite_bits(ref_lon),
        is_finite_bits(ref_lat),
        is_finite_bits(std_par),
        in_lon_range_bits(ref_lon),
        in_lat_range_bits(ref_lat),
        in_lat_range_bits(std_par),
    ensures
        eqc_new_spec(ref_lon, ref_lat, std_par) == Ok::<EquidistantCylindrical, ProjectionError>(
            eqc_from_params(ref_lon, ref_lat, std_par),
        ),
{
}

/// A finite parameter outside its canonical interval is rejected with a
/// range error.
pub proof fn lemma_eqc_out_of_range_rejected(ref_lon: u64, ref_lat: u64, std_par: u64)
    requires
        is_finite_bits(ref_lon),
        is_finite_bits(ref_lat),
        is_finite_bits(std_par),
        !(in_lon_range_bits(ref_lon) && in_lat_range_bits(ref_lat) && in_lat_range_bits(std_par)),
    ensures
        eqc_new_spec(ref_lon, ref_lat, std_par) matches Err(
            ProjectionError::ParamOutOfRange(_, _, _),
        ),
{
}

impl Projection for EquidistantCylindrical {
    open spec fn fwd_spec(self, lon: u64, lat: u64) -> (u64, u64) {
        eqc_fwd(self, lon, lat)
    }

    open spec fn inv_spec(self, x: u64, y: u64) -> (u64, u64) {
        eqc_inv(self, x, y)
    }

    #[inline(always)]
    fn project_unchecked(&self, lon: Fp, lat: Fp) -> (r: (Fp, Fp)) {
        let lon = lon.to_radians();
        let lat = lat.to_radians();
        let x = self.r_time_par_cos.mul(lon.sub(self.ref_lon));
        let y = self.r.mul(lat.sub(self.ref_lat));
        (x, y)
    }

    #[inline(always)]
    fn inverse_project_unchecked(&self, x: Fp, y: Fp) -> (r: (Fp, Fp)) {
        let lon = x.div(self.r_time_par_cos).add(self.ref_lon);
        let lat = y.div(self.r).add(self.ref_lat);
        (lon.to_degrees(), lat.to_degrees())
    }
}

} // verus!
