//! The modified azimuthal equidistant projection (closed-form series).

use crate::ellipsoids::Ellipsoid;
use crate::errors::{ParamName, ProjectionError};
use crate::fp::approx_eq;
use crate::fp::{
    abs_bits, add_bits, approx_eq_bits, asin_bits, atan2_bits, atan_bits, cos_bits, deg_bits,
    div_bits, in_lat_range_bits, in_lon_range_bits, is_finite_bits, mul_bits, neg_bits, rad_bits,
    signum_bits, sin_bits, sqrt_bits, sub_bits, tan_bits, Fp, ONE_BITS, TWO_BITS, ZERO_BITS,
};
use crate::{ConversionPipe, Projection};
use vstd::prelude::*;

verus! {

/// 3.0
pub const C3_BITS: u64 = 0x4008_0000_0000_0000;

/// 4.0
pub const MAE_C4_BITS: u64 = 0x4010_0000_0000_0000;

/// 6.0
pub const C6_BITS: u64 = 0x4018_0000_0000_0000;

/// 7.0
pub const MAE_C7_BITS: u64 = 0x401C_0000_0000_0000;

/// 8.0
pub const MAE_C8_BITS: u64 = 0x4020_0000_0000_0000;

/// 24.0
pub const MAE_C24_BITS: u64 = 0x4038_0000_0000_0000;

/// 48.0
pub const MAE_C48_BITS: u64 = 0x4048_0000_0000_0000;

/// 120.0
pub const MAE_C120_BITS: u64 = 0x405E_0000_0000_0000;

/// The azimuthal equidistant projection in its modified, series-based
/// closed form (Snyder's formulas for Guam and Micronesia mapping): all
/// points on the map are at proportionally correct distances and at the
/// correct azimuth from the center point.
///
/// This form trades exactness for speed: it avoids the iterative geodesic
/// computation and instead applies a fixed-degree polynomial correction, so
/// it diverges from the true geodesic solution at larger distances from the
/// reference point. That divergence is documented behavior, not a defect;
/// the geodesic-based [`AzimuthalEquidistant`](crate::projections::AzimuthalEquidistant)
/// is the exact, slower alternative.
#[derive(Copy, Clone, PartialEq, Eq, Structural, Debug)]
pub struct ModifiedAzimuthalEquidistant {
    /// Reference longitude, in radians.
    pub lon_0: Fp,
    /// Reference latitude, in radians.
    pub lat_0: Fp,
    /// Radius of curvature in the prime vertical at the reference latitude.
    pub n_1: Fp,
    /// The eccentricity-weighted sine term `e sin(lat_0) / sqrt(1 - e^2)`.
    pub g: Fp,
    /// The reference ellipsoid.
    pub ellps: Ellipsoid,
}

/// The radius of curvature in the prime vertical at a latitude (radians):
/// `A / sqrt(1 - e^2 sin^2(phi))`.
pub open spec fn mae_curvature_radius(phi: u64, a: u64, e: u64) -> u64 {
    div_bits(
        a,
        sqrt_bits(
            sub_bits(ONE_BITS, mul_bits(mul_bits(e, e), mul_bits(sin_bits(phi), sin_bits(phi)))),
        ),
    )
}

/// The projection value derived from validated parameters (degrees): the
/// references in radians, the radius of curvature at the reference
/// latitude, and the eccentricity-weighted sine term.
pub open spec fn mae_from_params(ref_lon: u64, ref_lat: u64, ellps: Ellipsoid) -> ModifiedAzimuthalEquidistant {
    let lon_0 = rad_bits(ref_lon);
    let lat_0 = rad_bits(ref_lat);
    let n_1 = mae_curvature_radius(lat_0, ellps.A.0, ellps.E.0);
    let g = div_bits(
        mul_bits(ellps.E.0, sin_bits(lat_0)),
        sqrt_bits(sub_bits(ONE_BITS, mul_bits(ellps.E.0, ellps.E.0))),
    );
    ModifiedAzimuthalEquidistant { lon_0: Fp(lon_0), lat_0: Fp(lat_0), n_1: Fp(n_1), g: Fp(g), ellps }
}

/// Everything the constructor does: the first violated validation rule's
/// error, or the fully derived projection value.
pub open spec fn mae_new_spec(ref_lon: u64, ref_lat: u64, ellps: Ellipsoid) -> Result<
    ModifiedAzimuthalEquidistant,
    ProjectionError,
> {
    if !is_finite_bits(ref_lon) {
        Err(ProjectionError::ParamNotFinite(ParamName::RefLon))
    } else if !is_finite_bits(ref_lat) {
        Err(ProjectionError::ParamNotFinite(ParamName::RefLat))
    } else if !in_lon_range_bits(ref_lon) {
        Err(ProjectionError::ParamOutOfRange(ParamName::RefLon, -180i32, 180i32))
    } else if !in_lat_range_bits(ref_lat) {
        Err(ProjectionError::ParamOutOfRange(ParamName::RefLat, -90i32, 90i32))
    } else {
        Ok(mae_from_params(ref_lon, ref_lat, ellps))
    }
}

impl ModifiedAzimuthalEquidistant {
    /// Modified azimuthal equidistant projection constructor.
    ///
    /// To reduce computational overhead of projection functions this
    /// constructor precomputes what the transforms reuse; only one instance
    /// should be created and copied or borrowed as needed.
    ///
    /// # Arguments
    ///
    /// - `ref_lon`, `ref_lat` - Reference longitude and latitude, in
    ///   degrees. Point (0, 0) on the map will be at these coordinates.
    /// - `ellps` - Reference [`Ellipsoid`].
    ///
    /// # Errors
    ///
    /// Returns [`ProjectionError::ParamNotFinite`] when a reference
    /// coordinate is NaN or infinite, and
    /// [`ProjectionError::ParamOutOfRange`] when the longitude is not
    /// within -180..180 or the latitude is not within -90..90.
    pub fn new(ref_lon: Fp, ref_lat: Fp, ellps: Ellipsoid) -> (r: Result<Self, ProjectionError>)
        ensures
            r == mae_new_spec(ref_lon.0, ref_lat.0, ellps),
    {
        if !ref_lon.is_finite() {
            return Err(ProjectionError::ParamNotFinite(ParamName::RefLon));
        }
        if !ref_lat.is_finite() {
            return Err(ProjectionError::ParamNotFinite(ParamName::RefLat));
        }
        if !ref_lon.in_lon_range() {
            return Err(ProjectionError::ParamOutOfRange(ParamName::RefLon, -180i32, 180i32));
        }
        if !ref_lat.in_lat_range() {
            return Err(ProjectionError::ParamOutOfRange(ParamName::RefLat, -90i32, 90i32));
        }
        let lon_0 = ref_lon.to_radians();
        let lat_0 = ref_lat.to_radians();
        let n_1 = ellps.A.div(
            Fp(ONE_BITS).sub(ellps.E.sq().mul(lat_0.sin().sq())).sqrt(),
        );
        let g = ellps.E.mul(lat_0.sin()).div(Fp(ONE_BITS).sub(ellps.E.sq()).sqrt());
        Ok(ModifiedAzimuthalEquidistant { lon_0, lat_0, n_1, g, ellps })
    }

    /// Builds a [`ConversionPipe`] from this projection into `target`
    /// without performing any transform.
    pub fn pipe_to<T: Projection>(&self, target: &T) -> (r: ConversionPipe<
        ModifiedAzimuthalEquidistant,
        T,
    >)
        ensures
            r.source == *self,
            r.target == *target,
    {
        ConversionPipe::new(*self, *target)
    }
}

/// Construction succeeds for every finite reference longitude in [-180,
/// 180) and reference latitude in [-90, 90).
pub proof fn lemma_mae_construction_succeeds(ref_lon: u64, ref_lat: u64, ellps: Ellipsoid)
    requires
        is_finite_bits(ref_lon),
        is_finite_bits(ref_lat),
        in_lon_range_bits(ref_lon),
        in_lat_range_bits(ref_lat),
    ensures
        mae_new_spec(ref_lon, ref_lat, ellps) == Ok::<ModifiedAzimuthalEquidistant, ProjectionError>(
            mae_from_params(ref_lon, ref_lat, ellps),
        ),
{
}

/// A finite reference coordinate outside its canonical interval is rejected
/// with a range error.
pub proof fn lemma_mae_out_of_range_rejected(ref_lon: u64, ref_lat: u64, ellps: Ellipsoid)
    requires
        is_finite_bits(ref_lon),
        is_finite_bits(ref_lat),
        !(in_lon_range_bits(ref_lon) && in_lat_range_bits(ref_lat)),
    ensures
        mae_new_spec(ref_lon, ref_lat, ellps) matches Err(
            ProjectionError::ParamOutOfRange(_, _, _),
        ),
{
}

/// The geodesic arc parameter of the forward transform. Away from the
/// reference meridian it is recovered from the azimuth; when the sine of
/// the azimuth approximately vanishes (a point due north or south of the
/// reference) that division is unusable and the direct-angle branch takes
/// the arc sine of the latitude-difference term instead, signed by the
/// cosine of the azimuth.
pub open spec fn mae_arc(p: ModifiedAzimuthalEquidistant, lon: u64, psi: u64, az: u64) -> u64 {
    if !approx_eq_bits(sin_bits(az), ZERO_BITS) {
        asin_bits(
            div_bits(mul_bits(sin_bits(sub_bits(lon, p.lon_0.0)), cos_bits(psi)), sin_bits(az)),
        )
    } else {
        mul_bits(
            abs_bits(
                asin_bits(
                    sub_bits(
                        mul_bits(cos_bits(p.lat_0.0), sin_bits(psi)),
                        mul_bits(sin_bits(p.lat_0.0), cos_bits(psi)),
                    ),
                ),
            ),
            signum_bits(cos_bits(az)),
        )
    }
}

/// The forward transform: the auxiliary angle psi, the azimuth, the arc
/// parameter s, the correction factor h, and the 5th-order polynomial
/// correction of `N1 * s` that yields the true planar radius c, resolved
/// into `x = c sin(az)`, `y = c cos(az)`.
pub open spec fn mae_fwd(p: ModifiedAzimuthalEquidistant, lon_deg: u64, lat_deg: u64) -> (
    u64,
    u64,
) {
    let lon = rad_bits(lon_deg);
    let lat = rad_bits(lat_deg);
    let e2 = mul_bits(p.ellps.E.0, p.ellps.E.0);
    let n = mae_curvature_radius(lat, p.ellps.A.0, p.ellps.E.0);
    let psi = atan_bits(
        add_bits(
            mul_bits(sub_bits(ONE_BITS, e2), tan_bits(lat)),
            div_bits(
                mul_bits(mul_bits(e2, p.n_1.0), sin_bits(p.lat_0.0)),
                mul_bits(n, cos_bits(lat)),
            ),
        ),
    );
    let az = atan2_bits(
        sin_bits(sub_bits(lon, p.lon_0.0)),
        sub_bits(
            mul_bits(cos_bits(p.lat_0.0), tan_bits(psi)),
            mul_bits(sin_bits(p.lat_0.0), cos_bits(sub_bits(lon, p.lon_0.0))),
        ),
    );
    let s = mae_arc(p, lon, psi, az);
    let h = div_bits(
        mul_bits(mul_bits(p.ellps.E.0, cos_bits(p.lat_0.0)), cos_bits(az)),
        sqrt_bits(sub_bits(ONE_BITS, e2)),
    );
    let s2 = mul_bits(s, s);
    let s3 = mul_bits(s2, s);
    let s4 = mul_bits(s2, s2);
    let s5 = mul_bits(s4, s);
    let h2 = mul_bits(h, h);
    let g2 = mul_bits(p.g.0, p.g.0);
    let term_1 = div_bits(mul_bits(mul_bits(s2, h2), sub_bits(ONE_BITS, h2)), C6_BITS);
    let term_2 = mul_bits(
        mul_bits(mul_bits(div_bits(s3, MAE_C8_BITS), p.g.0), h),
        sub_bits(ONE_BITS, mul_bits(TWO_BITS, h2)),
    );
    let term_3 = mul_bits(
        div_bits(s4, MAE_C120_BITS),
        sub_bits(
            mul_bits(h2, sub_bits(MAE_C4_BITS, mul_bits(MAE_C7_BITS, h2))),
            mul_bits(
                mul_bits(C3_BITS, g2),
                sub_bits(ONE_BITS, mul_bits(MAE_C7_BITS, h2)),
            ),
        ),
    );
    let term_4 = mul_bits(mul_bits(div_bits(s5, MAE_C48_BITS), p.g.0), h);
    let c = mul_bits(
        mul_bits(p.n_1.0, s),
        sub_bits(add_bits(add_bits(sub_bits(ONE_BITS, term_1), term_2), term_3), term_4),
    );
    (mul_bits(c, sin_bits(az)), mul_bits(c, cos_bits(az)))
}

/// The inverse transform: auxiliary terms A, B, D, E and F built from the
/// planar radius and azimuth, reconstructing the angle psi and then the
/// latitude and longitude, in degrees.
pub open spec fn mae_inv(p: ModifiedAzimuthalEquidistant, x: u64, y: u64) -> (u64, u64) {
    let e2 = mul_bits(p.ellps.E.0, p.ellps.E.0);
    let c = sqrt_bits(add_bits(mul_bits(x, x), mul_bits(y, y)));
    let az = atan2_bits(x, y);
    let big_a = div_bits(
        mul_bits(
            mul_bits(
                mul_bits(neg_bits(p.ellps.E.0), p.ellps.E.0),
                mul_bits(cos_bits(p.lat_0.0), cos_bits(p.lat_0.0)),
            ),
            mul_bits(cos_bits(az), cos_bits(az)),
        ),
        sub_bits(ONE_BITS, e2),
    );
    let big_b = div_bits(
        mul_bits(
            mul_bits(
                mul_bits(
                    mul_bits(
                        mul_bits(mul_bits(C3_BITS, p.ellps.E.0), p.ellps.E.0),
                        sub_bits(ONE_BITS, big_a),
                    ),
                    sin_bits(p.lat_0.0),
                ),
                cos_bits(p.lat_0.0),
            ),
            cos_bits(az),
        ),
        sub_bits(ONE_BITS, e2),
    );
    let big_d = div_bits(c, p.n_1.0);
    let d2 = mul_bits(big_d, big_d);
    let d3 = mul_bits(d2, big_d);
    let d4 = mul_bits(d2, d2);
    let big_e = sub_bits(
        sub_bits(
            big_d,
            div_bits(mul_bits(mul_bits(big_a, add_bits(ONE_BITS, big_a)), d3), C6_BITS),
        ),
        div_bits(
            mul_bits(
                mul_bits(big_b, add_bits(ONE_BITS, mul_bits(C3_BITS, big_a))),
                d4,
            ),
            MAE_C24_BITS,
        ),
    );
    let e_2 = mul_bits(big_e, big_e);
    let e_3 = mul_bits(e_2, big_e);
    let big_f = sub_bits(
        sub_bits(ONE_BITS, div_bits(mul_bits(mul_bits(big_a, big_e), big_e), TWO_BITS)),
        div_bits(mul_bits(big_b, e_3), C6_BITS),
    );
    let psi = asin_bits(
        add_bits(
            mul_bits(sin_bits(p.lat_0.0), cos_bits(big_e)),
            mul_bits(mul_bits(cos_bits(p.lat_0.0), sin_bits(big_e)), cos_bits(az)),
        ),
    );
    let lon = add_bits(
        p.lon_0.0,
        asin_bits(div_bits(mul_bits(sin_bits(az), sin_bits(big_e)), cos_bits(psi))),
    );
    let lat = atan_bits(
        div_bits(
            mul_bits(
                sub_bits(
                    ONE_BITS,
                    div_bits(
                        mul_bits(mul_bits(e2, big_f), sin_bits(p.lat_0.0)),
                        sin_bits(psi),
                    ),
                ),
                tan_bits(psi),
            ),
            sub_bits(ONE_BITS, e2),
        ),
    );
    (deg_bits(lon), deg_bits(lat))
}

impl Projection for ModifiedAzimuthalEquidistant {
    open spec fn fwd_spec(self, lon: u64, lat: u64) -> (u64, u64) {
        mae_fwd(self, lon, lat)
    }

    open spec fn inv_spec(self, x: u64, y: u64) -> (u64, u64) {
        mae_inv(self, x, y)
    }

    fn project_unchecked(&self, lon: Fp, lat: Fp) -> (r: (Fp, Fp)) {
        let lon = lon.to_radians();
        let lat = lat.to_radians();

        let n = self.ellps.A.div(
            Fp(ONE_BITS).sub(self.ellps.E.sq().mul(lat.sin().sq())).sqrt(),
        );

        let psi = Fp(ONE_BITS).sub(self.ellps.E.sq()).mul(lat.tan()).add(
            self.ellps.E.sq().mul(self.n_1).mul(self.lat_0.sin()).div(n.mul(lat.cos())),
        ).atan();

        let az = lon.sub(self.lon_0).sin().atan2(
            self.lat_0.cos().mul(psi.tan()).sub(self.lat_0.sin().mul(lon.sub(self.lon_0).cos())),
        );

        let s = if !approx_eq(az.sin(), Fp(ZERO_BITS)) {
            lon.sub(self.lon_0).sin().mul(psi.cos()).div(az.sin()).asin()
        } else {
            self.lat_0.cos().mul(psi.sin()).sub(self.lat_0.sin().mul(psi.cos())).asin().abs().mul(
                az.cos().signum(),
            )
        };

        let h = self.ellps.E.mul(self.lat_0.cos()).mul(az.cos()).div(
            Fp(ONE_BITS).sub(self.ellps.E.sq()).sqrt(),
        );

        let s2 = s.sq();
        let s3 = s2.mul(s);
        let s4 = s2.sq();
        let s5 = s4.mul(s);
        let h2 = h.sq();
        let g2 = self.g.sq();

        let term_1 = s2.mul(h2).mul(Fp(ONE_BITS).sub(h2)).div(Fp(C6_BITS));
        let term_2 = s3.div(Fp(MAE_C8_BITS)).mul(self.g).mul(h).mul(
            Fp(ONE_BITS).sub(Fp(TWO_BITS).mul(h2)),
        );
        let term_3 = s4.div(Fp(MAE_C120_BITS)).mul(
            h2.mul(Fp(MAE_C4_BITS).sub(Fp(MAE_C7_BITS).mul(h2))).sub(
                Fp(C3_BITS).mul(g2).mul(Fp(ONE_BITS).sub(Fp(MAE_C7_BITS).mul(h2))),
            ),
        );
        let term_4 = s5.div(Fp(MAE_C48_BITS)).mul(self.g).mul(h);

        let c = self.n_1.mul(s).mul(
            Fp(ONE_BITS).sub(term_1).add(term_2).add(term_3).sub(term_4),
        );

        let x = c.mul(az.sin());
        let y = c.mul(az.cos());

        (x, y)
    }

    fn inverse_project_unchecked(&self, x: Fp, y: Fp) -> (r: (Fp, Fp)) {
        let c = x.mul(x).add(y.mul(y)).sqrt();
        let az = x.atan2(y);

        let big_a = self.ellps.E.neg().mul(self.ellps.E).mul(self.lat_0.cos().sq()).mul(
            az.cos().sq(),
        ).div(Fp(ONE_BITS).sub(self.ellps.E.mul(self.ellps.E)));
        let big_b = Fp(C3_BITS).mul(self.ellps.E).mul(self.ellps.E).mul(
            Fp(ONE_BITS).sub(big_a),
        ).mul(self.lat_0.sin()).mul(self.lat_0.cos()).mul(az.cos()).div(
            Fp(ONE_BITS).sub(self.ellps.E.mul(self.ellps.E)),
        );
        let big_d = c.div(self.n_1);
        let d2 = big_d.sq();
        let d3 = d2.mul(big_d);
        let d4 = d2.sq();
        let big_e = big_d.sub(
            big_a.mul(Fp(ONE_BITS).add(big_a)).mul(d3).div(Fp(C6_BITS)),
        ).sub(
            big_b.mul(Fp(ONE_BITS).add(Fp(C3_BITS).mul(big_a))).mul(d4).div(Fp(MAE_C24_BITS)),
        );
        let big_f = Fp(ONE_BITS).sub(big_a.mul(big_e).mul(big_e).div(Fp(TWO_BITS))).sub(
            big_b.mul(big_e.sq().mul(big_e)).div(Fp(C6_BITS)),
        );

        let psi = self.lat_0.sin().mul(big_e.cos()).add(
            self.lat_0.cos().mul(big_e.sin()).mul(az.cos()),
        ).asin();

        let lon = self.lon_0.add(az.sin().mul(big_e.sin()).div(psi.cos()).asin());
        let lat = Fp(ONE_BITS).sub(
            self.ellps.E.mul(self.ellps.E).mul(big_f).mul(self.lat_0.sin()).div(psi.sin()),
        ).mul(psi.tan()).div(Fp(ONE_BITS).sub(self.ellps.E.mul(self.ellps.E))).atan();

        (lon.to_degrees(), lat.to_degrees())
    }
}

} // verus!
