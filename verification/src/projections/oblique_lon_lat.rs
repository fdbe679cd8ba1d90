//! The oblique longitude-latitude (rotated pole) projection.

use crate::errors::{ParamName, ProjectionError};
use crate::fp::{
    add_bits, asin_bits, atan2_bits, cos_bits, deg_bits, in_lat_range_bits, in_lon_range_bits,
    is_finite_bits, lt_bits, mul_bits, rad_bits, sin_bits, sub_bits, Fp, NEG_ONE_EIGHTY_BITS,
    ONE_EIGHTY_BITS, THREE_SIXTY_BITS, ZERO_BITS,
};
use crate::{ConversionPipe, Projection};
use vstd::prelude::*;

verus! {

/// An oblique longitude-latitude projection that transforms the Earth's
/// graticule so that the "north pole" of the coordinate system assumes a
/// position different from the true North Pole. This effectively rotates the
/// meridian and parallel grid, allowing any point on Earth to serve as the
/// reference pole of the projection.
///
/// The transformation rotates the spherical coordinate system before
/// applying standard longitude-latitude coordinates (Snyder's formulas 5-7
/// to 5-10b); it does not depend on the ellipsoid, and unlike the other
/// projections of the catalogue its planar output is in degrees, not meters.
#[derive(Copy, Clone, PartialEq, Eq, Structural, Debug)]
pub struct ObliqueLonLat {
    /// Longitude of the rotated pole, in radians.
    pub lambda_p: Fp,
    /// Sine of the rotated pole's latitude.
    pub sin_phi_p: Fp,
    /// Cosine of the rotated pole's latitude.
    pub cos_phi_p: Fp,
    /// Longitude of the central meridian, in degrees; combined algebraically
    /// with the degree-valued outputs, never converted.
    pub lon_0: Fp,
}

/// Longitude normalization: subtracts or adds one full turn of 360 degrees
/// when the value lies outside (-180, 180], and NaN stays NaN.
pub open spec fn adjust_lon_bits(lon: u64) -> u64 {
    if lt_bits(ONE_EIGHTY_BITS, lon) {
        sub_bits(lon, THREE_SIXTY_BITS)
    } else if lt_bits(lon, NEG_ONE_EIGHTY_BITS) {
        add_bits(lon, THREE_SIXTY_BITS)
    } else {
        lon
    }
}

fn adjust_lon(lon: Fp) -> (r: Fp)
    ensures
        r.0 == adjust_lon_bits(lon.0),
{
    if Fp(ONE_EIGHTY_BITS).lt(lon) {
        lon.sub(Fp(THREE_SIXTY_BITS))
    } else if lon.lt(Fp(NEG_ONE_EIGHTY_BITS)) {
        lon.add(Fp(THREE_SIXTY_BITS))
    } else {
        lon
    }
}

/// The projection value derived from canonical parameters (degrees): the
/// pole longitude in radians, the sine and cosine of the pole latitude, and
/// the central meridian kept in degrees.
pub open spec fn oll_from_params(pole_lon: u64, pole_lat: u64, central_lon: u64) -> ObliqueLonLat {
    ObliqueLonLat {
        lambda_p: Fp(rad_bits(pole_lon)),
        sin_phi_p: Fp(sin_bits(rad_bits(pole_lat))),
        cos_phi_p: Fp(cos_bits(rad_bits(pole_lat))),
        lon_0: Fp(central_lon),
    }
}

/// Everything the constructor does, after an absent central meridian has
/// defaulted to zero: the first violated validation rule's error, or the
/// fully derived projection value.
pub open spec fn oll_new_spec(pole_lon: u64, pole_lat: u64, central_lon: u64) -> Result<
    ObliqueLonLat,
    ProjectionError,
> {
    if !is_finite_bits(pole_lon) {
        Err(ProjectionError::ParamNotFinite(ParamName::PoleLon))
    } else if !is_finite_bits(pole_lat) {
        Err(ProjectionError::ParamNotFinite(ParamName::PoleLat))
    } else if !is_finite_bits(central_lon) {
        Err(ProjectionError::ParamNotFinite(ParamName::CentralLon))
    } else if !in_lon_range_bits(pole_lon) {
        Err(ProjectionError::ParamOutOfRange(ParamName::PoleLon, -180i32, 180i32))
    } else if !in_lat_range_bits(pole_lat) {
        Err(ProjectionError::ParamOutOfRange(ParamName::PoleLat, -90i32, 90i32))
    } else if !in_lon_range_bits(central_lon) {
        Err(ProjectionError::ParamOutOfRange(ParamName::CentralLon, -180i32, 180i32))
    } else {
        Ok(oll_from_params(pole_lon, pole_lat, central_lon))
    }
}

impl ObliqueLonLat {
    /// ObliqueLonLat projection constructor.
    ///
    /// To reduce computational overhead of projection functions this
    /// constructor precomputes what the transforms reuse; only one instance
    /// should be created and copied or borrowed as needed.
    ///
    /// An ellipsoid is not definable as this projection does not depend on
    /// it.
    ///
    /// # Arguments
    ///
    /// - `pole_lon`, `pole_lat` - longitude and latitude (degrees) of the
    ///   original North Pole (90N, 0E) in the new rotated system.
    /// - `central_lon` - longitude of the central meridian (optional,
    ///   defaults to 0).
    ///
    /// # Errors
    ///
    /// Returns [`ProjectionError::ParamNotFinite`] when an argument is NaN
    /// or infinite, and [`ProjectionError::ParamOutOfRange`] when a
    /// longitude is not within -180..180 or a latitude is not within
    /// -90..90.
    pub fn new(pole_lon: Fp, pole_lat: Fp, central_lon: Option<Fp>) -> (r: Result<
        Self,
        ProjectionError,
    >)
        ensures
            r == oll_new_spec(
                pole_lon.0,
                pole_lat.0,
                match central_lon {
                    Some(c) => c.0,
                    None => ZERO_BITS,
                },
            ),
    {
        let central_lon = match central_lon {
            Some(c) => c,
            None => Fp(ZERO_BITS),
        };
        if !pole_lon.is_finite() {
            return Err(ProjectionError::ParamNotFinite(ParamName::PoleLon));
        }
        if !pole_lat.is_finite() {
            return Err(ProjectionError::ParamNotFinite(ParamName::PoleLat));
        }
        if !central_lon.is_finite() {
            return Err(ProjectionError::ParamNotFinite(ParamName::CentralLon));
        }
        if !pole_lon.in_lon_range() {
            return Err(ProjectionError::ParamOutOfRange(ParamName::PoleLon, -180i32, 180i32));
        }
        if !pole_lat.in_lat_range() {
            return Err(ProjectionError::ParamOutOfRange(ParamName::PoleLat, -90i32, 90i32));
        }
        if !central_lon.in_lon_range() {
            return Err(ProjectionError::ParamOutOfRange(ParamName::CentralLon, -180i32, 180i32));
        }
        let phi_p = pole_lat.to_radians();
        Ok(
            ObliqueLonLat {
                lambda_p: pole_lon.to_radians(),
                sin_phi_p: phi_p.sin(),
                cos_phi_p: phi_p.cos(),
                lon_0: central_lon,
            },
        )
    }

    /// Builds a [`ConversionPipe`] from this projection into `target`
    /// without performing any transform.
    pub fn pipe_to<T: Projection>(&self, target: &T) -> (r: ConversionPipe<ObliqueLonLat, T>)
        ensures
            r.source == *self,
            r.target == *target,
    {
        ConversionPipe::new(*self, *target)
    }
}

/// Construction succeeds for every finite pole and central longitude in
/// [-180, 180) and pole latitude in [-90, 90).
pub proof fn lemma_oll_construction_succeeds(pole_lon: u64, pole_lat: u64, central_lon: u64)
    requires
        is_finite_bits(pole_lon),
        is_finite_bits(pole_lat),
        is_finite_bits(central_lon),
        in_lon_range_bits(pole_lon),
        in_lat_range_bits(pole_lat),
        in_lon_range_bits(central_lon),
    ensures
        oll_new_spec(pole_lon, pole_lat, central_lon) == Ok::<ObliqueLonLat, ProjectionError>(
            oll_from_params(pole_lon, pole_lat, central_lon),
        ),
{
}

/// A finite parameter outside its canonical interval is rejected with a
/// range error.
pub proof fn lemma_oll_out_of_range_rejected(pole_lon: u64, pole_lat: u64, central_lon: u64)
    requires
        is_finite_bits(pole_lon),
        is_finite_bits(pole_lat),
        is_finite_bits(central_lon),
        !(in_lon_range_bits(pole_lon) && in_lat_range_bits(pole_lat) && in_lon_range_bits(
            central_lon,
        )),
    ensures
        oll_new_spec(pole_lon, pole_lat, central_lon) matches Err(
            ProjectionError::ParamOutOfRange(_, _, _),
        ),
{
}

/// The forward rotation (Snyder 5-7 and 5-8b): the point's position in the
/// rotated graticule, in degrees, with the longitude normalized into
/// (-180, 180].
pub open spec fn oll_fwd(p: ObliqueLonLat, lon: u64, lat: u64) -> (u64, u64) {
    let lambda = rad_bits(sub_bits(lon, p.lon_0.0));
    let phi = rad_bits(lat);
    let cos_lambda = cos_bits(lambda);
    let sin_lambda = sin_bits(lambda);
    let cos_phi = cos_bits(phi);
    let sin_phi = sin_bits(phi);
    let lambda_prime = add_bits(
        atan2_bits(
            mul_bits(cos_phi, sin_lambda),
            add_bits(
                mul_bits(mul_bits(p.sin_phi_p.0, cos_phi), cos_lambda),
                mul_bits(p.cos_phi_p.0, sin_phi),
            ),
        ),
        p.lambda_p.0,
    );
    let phi_prime = asin_bits(
        sub_bits(
            mul_bits(p.sin_phi_p.0, sin_phi),
            mul_bits(mul_bits(p.cos_phi_p.0, cos_phi), cos_lambda),
        ),
    );
    (adjust_lon_bits(deg_bits(lambda_prime)), deg_bits(phi_prime))
}

/// The inverse rotation (Snyder 5-9 and 5-10b): back from the rotated
/// graticule to true longitude and latitude, in degrees, with the longitude
/// normalized into (-180, 180].
pub open spec fn oll_inv(p: ObliqueLonLat, x: u64, y: u64) -> (u64, u64) {
    let lambda_prime = sub_bits(rad_bits(x), p.lambda_p.0);
    let phi_prime = rad_bits(y);
    let cos_lambda_prime = cos_bits(lambda_prime);
    let sin_lambda_prime = sin_bits(lambda_prime);
    let cos_phi_prime = cos_bits(phi_prime);
    let sin_phi_prime = sin_bits(phi_prime);
    let lambda = atan2_bits(
        mul_bits(cos_phi_prime, sin_lambda_prime),
        sub_bits(
            mul_bits(mul_bits(p.sin_phi_p.0, cos_phi_prime), cos_lambda_prime),
            mul_bits(p.cos_phi_p.0, sin_phi_prime),
        ),
    );
    let phi = asin_bits(
        add_bits(
            mul_bits(p.sin_phi_p.0, sin_phi_prime),
            mul_bits(mul_bits(p.cos_phi_p.0, cos_phi_prime), cos_lambda_prime),
        ),
    );
    (adjust_lon_bits(add_bits(deg_bits(lambda), p.lon_0.0)), deg_bits(phi))
}

impl Projection for ObliqueLonLat {
    open spec fn fwd_spec(self, lon: u64, lat: u64) -> (u64, u64) {
        oll_fwd(self, lon, lat)
    }

    open spec fn inv_spec(self, x: u64, y: u64) -> (u64, u64) {
        oll_inv(self, x, y)
    }

    fn project_unchecked(&self, lon: Fp, lat: Fp) -> (r: (Fp, Fp)) {
        let lambda = lon.sub(self.lon_0).to_radians();
        let phi = lat.to_radians();

        let cos_lambda = lambda.cos();
        let sin_lambda = lambda.sin();
        let cos_phi = phi.cos();
        let sin_phi = phi.sin();

        // Formula (5-8b) of Snyder (1987)
        let lambda_prime = cos_phi.mul(sin_lambda).atan2(
            self.sin_phi_p.mul(cos_phi).mul(cos_lambda).add(self.cos_phi_p.mul(sin_phi)),
        ).add(self.lambda_p);

        // Formula (5-7)
        let phi_prime = self.sin_phi_p.mul(sin_phi).sub(
            self.cos_phi_p.mul(cos_phi).mul(cos_lambda),
        ).asin();

        let lon_prime = adjust_lon(lambda_prime.to_degrees());
        let lat_prime = phi_prime.to_degrees();
        (lon_prime, lat_prime)
    }

    fn inverse_project_unchecked(&self, x: Fp, y: Fp) -> (r: (Fp, Fp)) {
        let lambda_prime = x.to_radians().sub(self.lambda_p);
        let phi_prime = y.to_radians();

        let cos_lambda_prime = lambda_prime.cos();
        let sin_lambda_prime = lambda_prime.sin();
        let cos_phi_prime = phi_prime.cos();
        let sin_phi_prime = phi_prime.sin();

        // Formula (5-10b)
        let lambda = cos_phi_prime.mul(sin_lambda_prime).atan2(
            self.sin_phi_p.mul(cos_phi_prime).mul(cos_lambda_prime).sub(
                self.cos_phi_p.mul(sin_phi_prime),
            ),
        );

        // Formula (5-9)
        let phi = self.sin_phi_p.mul(sin_phi_prime).add(
            self.cos_phi_p.mul(cos_phi_prime).mul(cos_lambda_prime),
        ).asin();

        let lon = adjust_lon(lambda.to_degrees().add(self.lon_0));
        let lat = phi.to_degrees();
        (lon, lat)
    }
}

} // verus!
