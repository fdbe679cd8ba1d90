//! The Lambert Conformal Conic projection.

use crate::ellipsoids::Ellipsoid;
use crate::errors::{ParamName, ParamsConstraint, ProjectionError};
use crate::fp::{
    add_bits, approx_eq_bits, atan2_bits, atan_bits, cos_bits, deg_bits, div_bits,
    hypot_bits, in_lat_range_bits, in_lon_range_bits, is_finite_bits, ln_bits, mul_bits, pow_bits,
    rad_bits, signum_bits, sin_bits, sqrt_bits, sub_bits, tan_bits, Fp, FRAC_PI_2_BITS,
    FRAC_PI_4_BITS, HALF_BITS, ONE_BITS, TWO_BITS, ZERO_BITS,
};
use crate::fp::approx_eq;
use crate::{ConversionPipe, Projection};
use vstd::prelude::*;

verus! {

/// 4.0
pub const C4_BITS: u64 = 0x4010_0000_0000_0000;

/// 5.0
pub const C5_BITS: u64 = 0x4014_0000_0000_0000;

/// 7.0
pub const C7_BITS: u64 = 0x401C_0000_0000_0000;

/// 8.0
pub const C8_BITS: u64 = 0x4020_0000_0000_0000;

/// 12.0
pub const C12_BITS: u64 = 0x4028_0000_0000_0000;

/// 13.0
pub const C13_BITS: u64 = 0x402A_0000_0000_0000;

/// 24.0
pub const C24_BITS: u64 = 0x4038_0000_0000_0000;

/// 29.0
pub const C29_BITS: u64 = 0x403D_0000_0000_0000;

/// 48.0
pub const C48_BITS: u64 = 0x4048_0000_0000_0000;

/// 81.0
pub const C81_BITS: u64 = 0x4054_4000_0000_0000;

/// 120.0
pub const C120_BITS: u64 = 0x405E_0000_0000_0000;

/// 240.0
pub const C240_BITS: u64 = 0x406E_0000_0000_0000;

/// 360.0
pub const C360_BITS: u64 = 0x4076_8000_0000_0000;

/// 811.0
pub const C811_BITS: u64 = 0x4089_5800_0000_0000;

/// 1120.0
pub const C1120_BITS: u64 = 0x4091_8000_0000_0000;

/// 11520.0
pub const C11520_BITS: u64 = 0x40C6_8000_0000_0000;

/// 4279.0
pub const C4279_BITS: u64 = 0x40B0_B700_0000_0000;

/// 161280.0
pub const C161280_BITS: u64 = 0x4103_B000_0000_0000;

/// Lambert Conformal Conic projection (LCC) is a conic map projection used
/// for aeronautical charts, portions of the State Plane Coordinate System,
/// and many national and regional mapping systems.
///
/// Summary by Snyder (1987):
///
/// - Conic.
/// - Conformal.
/// - Parallels are unequally spaced arcs of concentric circles, more closely
///   spaced near the center of the map.
/// - Meridians are equally spaced radii of the same circles, thereby cutting
///   parallels at right angles.
/// - Scale is true along two standard parallels, normally, or along just
///   one.
/// - Pole in same hemisphere as standard parallels is a point; other pole is
///   at infinity.
/// - Used for maps of countries and regions with predominant east-west
///   expanse.
/// - Presented by Lambert in 1772.
#[derive(Copy, Clone, PartialEq, Eq, Structural, Debug)]
pub struct LambertConformalConic {
    /// Reference longitude, in radians.
    pub lambda_0: Fp,
    /// The cone constant: the sine of the single standard parallel for a
    /// tangent cone, Snyder's ratio of logarithms for a secant one.
    pub n: Fp,
    /// The scale factor relating the ellipsoid radius to the projected
    /// radius.
    pub big_f: Fp,
    /// The projected radius of the reference latitude.
    pub rho_0: Fp,
    /// The reference ellipsoid.
    pub ellps: Ellipsoid,
}

/// Snyder's auxiliary function t (the half conformal colatitude tangent):
/// `tan(pi/4 - phi/2) / ((1 - e sin(phi)) / (1 + e sin(phi)))^(e/2)`.
pub open spec fn lcc_t(phi: u64, e: u64) -> u64 {
    div_bits(
        tan_bits(sub_bits(FRAC_PI_4_BITS, mul_bits(HALF_BITS, phi))),
        pow_bits(
            div_bits(
                sub_bits(ONE_BITS, mul_bits(e, sin_bits(phi))),
                add_bits(ONE_BITS, mul_bits(e, sin_bits(phi))),
            ),
            div_bits(e, TWO_BITS),
        ),
    )
}

/// Snyder's auxiliary function m: `cos(phi) / sqrt(1 - e^2 sin^2(phi))`.
pub open spec fn lcc_m(phi: u64, e: u64) -> u64 {
    div_bits(
        cos_bits(phi),
        sqrt_bits(
            sub_bits(ONE_BITS, mul_bits(mul_bits(e, e), mul_bits(sin_bits(phi), sin_bits(phi)))),
        ),
    )
}

/// The cone constant of the secant cone through two standard parallels:
/// `(ln m1 - ln m2) / (ln t1 - ln t2)`.
pub open spec fn lcc_n(m_1: u64, m_2: u64, t_1: u64, t_2: u64) -> u64 {
    div_bits(sub_bits(ln_bits(m_1), ln_bits(m_2)), sub_bits(ln_bits(t_1), ln_bits(t_2)))
}

/// The scale factor: `m1 / (n * t1^n)`.
pub open spec fn lcc_big_f(m_1: u64, n: u64, t_1: u64) -> u64 {
    div_bits(m_1, mul_bits(n, pow_bits(t_1, n)))
}

/// The projected radius of a parallel with auxiliary value t:
/// `A * F * t^n`.
pub open spec fn lcc_rho(big_f: u64, t: u64, n: u64, a: u64) -> u64 {
    mul_bits(mul_bits(a, big_f), pow_bits(t, n))
}

/// The latitude recovered from the auxiliary value t by the truncated
/// series (Snyder eq. 3-5) in even powers of the eccentricity up to e^8,
/// applied to the conformal latitude `chi = pi/2 - 2 atan(t)`, with the
/// trigonometric terms folded into a polynomial in `cos(2 chi)`.
pub open spec fn lcc_phi_for_inverse(t: u64, e: u64) -> u64 {
    let chi = sub_bits(FRAC_PI_2_BITS, mul_bits(TWO_BITS, atan_bits(t)));
    let e2 = mul_bits(e, e);
    let e4 = mul_bits(e2, e2);
    let e6 = mul_bits(e4, e2);
    let e8 = mul_bits(e4, e4);
    let big_a = add_bits(
        add_bits(
            add_bits(
                div_bits(e2, TWO_BITS),
                mul_bits(C5_BITS, div_bits(e4, C24_BITS)),
            ),
            div_bits(e6, C12_BITS),
        ),
        mul_bits(C13_BITS, div_bits(e8, C360_BITS)),
    );
    let big_b = add_bits(
        add_bits(
            mul_bits(C7_BITS, div_bits(e4, C48_BITS)),
            mul_bits(C29_BITS, div_bits(e6, C240_BITS)),
        ),
        mul_bits(C811_BITS, div_bits(e8, C11520_BITS)),
    );
    let big_c = add_bits(
        mul_bits(C7_BITS, div_bits(e6, C120_BITS)),
        mul_bits(C81_BITS, div_bits(e8, C1120_BITS)),
    );
    let big_d = mul_bits(
        C4279_BITS,
        div_bits(e8, C161280_BITS),
    );
    let a_prime = sub_bits(big_a, big_c);
    let b_prime = sub_bits(mul_bits(TWO_BITS, big_b), mul_bits(C4_BITS, big_d));
    let c_prime = mul_bits(C4_BITS, big_c);
    let d_prime = mul_bits(C8_BITS, big_d);
    let sin_2chi = sin_bits(mul_bits(TWO_BITS, chi));
    let cos_2chi = cos_bits(mul_bits(TWO_BITS, chi));
    add_bits(
        chi,
        mul_bits(
            sin_2chi,
            add_bits(
                a_prime,
                mul_bits(
                    cos_2chi,
                    add_bits(
                        b_prime,
                        mul_bits(cos_2chi, add_bits(c_prime, mul_bits(d_prime, cos_2chi))),
                    ),
                ),
            ),
        ),
    )
}

/// The projection value derived from validated parameters (degrees): the
/// reference longitude in radians and the precomputed cone constant, scale
/// factor and reference radius. With approximately equal standard parallels
/// the cone is tangent and the cone constant is the sine of the first
/// parallel; otherwise it is the secant ratio of logarithms.
pub open spec fn lcc_from_params(
    ref_lon: u64,
    ref_lat: u64,
    std_par_1: u64,
    std_par_2: u64,
    ellps: Ellipsoid,
) -> LambertConformalConic {
    let phi_0 = rad_bits(ref_lat);
    let phi_1 = rad_bits(std_par_1);
    let phi_2 = rad_bits(std_par_2);
    let t_0 = lcc_t(phi_0, ellps.E.0);
    let t_1 = lcc_t(phi_1, ellps.E.0);
    let t_2 = lcc_t(phi_2, ellps.E.0);
    let m_1 = lcc_m(phi_1, ellps.E.0);
    let m_2 = lcc_m(phi_2, ellps.E.0);
    let n = if approx_eq_bits(std_par_1, std_par_2) {
        sin_bits(phi_1)
    } else {
        lcc_n(m_1, m_2, t_1, t_2)
    };
    let big_f = lcc_big_f(m_1, n, t_1);
    let rho_0 = lcc_rho(big_f, t_0, n, ellps.A.0);
    LambertConformalConic {
        lambda_0: Fp(rad_bits(ref_lon)),
        n: Fp(n),
        big_f: Fp(big_f),
        rho_0: Fp(rho_0),
        ellps,
    }
}

/// Everything the constructor does: the first violated validation rule's
/// error, or the fully derived projection value. Standard parallels summing
/// approximately to zero leave the cone constant undefined and are the one
/// structural rejection.
pub open spec fn lcc_new_spec(
    ref_lon: u64,
    ref_lat: u64,
    std_par_1: u64,
    std_par_2: u64,
    ellps: Ellipsoid,
) -> Result<LambertConformalConic, ProjectionError> {
    if !is_finite_bits(ref_lon) {
        Err(ProjectionError::ParamNotFinite(ParamName::RefLon))
    } else if !is_finite_bits(ref_lat) {
        Err(ProjectionError::ParamNotFinite(ParamName::RefLat))
    } else if !is_finite_bits(std_par_1) {
        Err(ProjectionError::ParamNotFinite(ParamName::StdPar1))
    } else if !is_finite_bits(std_par_2) {
        Err(ProjectionError::ParamNotFinite(ParamName::StdPar2))
    } else if !in_lon_range_bits(ref_lon) {
        Err(ProjectionError::ParamOutOfRange(ParamName::RefLon, -180i32, 180i32))
    } else if !in_lat_range_bits(ref_lat) {
        Err(ProjectionError::ParamOutOfRange(ParamName::RefLat, -90i32, 90i32))
    } else if !in_lat_range_bits(std_par_1) {
        Err(ProjectionError::ParamOutOfRange(ParamName::StdPar1, -90i32, 90i32))
    } else if !in_lat_range_bits(std_par_2) {
        Err(ProjectionError::ParamOutOfRange(ParamName::StdPar2, -90i32, 90i32))
    } else if approx_eq_bits(add_bits(std_par_1, std_par_2), ZERO_BITS) {
        Err(ProjectionError::IncorrectParams(ParamsConstraint::StandardParallelsSumZero))
    } else {
        Ok(lcc_from_params(ref_lon, ref_lat, std_par_1, std_par_2, ellps))
    }
}

impl LambertConformalConic {
    /// LCC projection constructor.
    ///
    /// To reduce computational overhead of projection functions this
    /// constructor is non-trivial and tries to do as much projection
    /// computation as possible. Thus creating a new structure can involve a
    /// significant computational overhead. When projecting multiple
    /// coordinates only one instance of the structure should be created and
    /// cloned/borrowed as needed.
    ///
    /// # Arguments
    ///
    /// - `ref_lon`, `ref_lat` - Reference longitude and latitude, in
    ///   degrees. Point (0, 0) on the map will be at these coordinates.
    /// - `std_par_1`, `std_par_2` - First and second standard parallel
    ///   (latitude, degrees). Scale is true along the standard parallels;
    ///   equal parallels define the tangent cone.
    /// - `ellps` - Reference [`Ellipsoid`].
    ///
    /// # Errors
    ///
    /// Returns [`ProjectionError::ParamNotFinite`] when an argument is NaN
    /// or infinite, [`ProjectionError::ParamOutOfRange`] when a longitude is
    /// not within -180..180 or a latitude is not within -90..90, and
    /// [`ProjectionError::IncorrectParams`] when the standard parallels sum
    /// to zero.
    pub fn new(ref_lon: Fp, ref_lat: Fp, std_par_1: Fp, std_par_2: Fp, ellps: Ellipsoid) -> (r:
        Result<Self, ProjectionError>)
        ensures
            r == lcc_new_spec(ref_lon.0, ref_lat.0, std_par_1.0, std_par_2.0, ellps),
    {
        if !ref_lon.is_finite() {
            return Err(ProjectionError::ParamNotFinite(ParamName::RefLon));
        }
        if !ref_lat.is_finite() {
            return Err(ProjectionError::ParamNotFinite(ParamName::RefLat));
        }
        if !std_par_1.is_finite() {
            return Err(ProjectionError::ParamNotFinite(ParamName::StdPar1));
        }
        if !std_par_2.is_finite() {
            return Err(ProjectionError::ParamNotFinite(ParamName::StdPar2));
        }
        if !ref_lon.in_lon_range() {
            return Err(ProjectionError::ParamOutOfRange(ParamName::RefLon, -180i32, 180i32));
        }
        if !ref_lat.in_lat_range() {
            return Err(ProjectionError::ParamOutOfRange(ParamName::RefLat, -90i32, 90i32));
        }
        if !std_par_1.in_lat_range() {
            return Err(ProjectionError::ParamOutOfRange(ParamName::StdPar1, -90i32, 90i32));
        }
        if !std_par_2.in_lat_range() {
            return Err(ProjectionError::ParamOutOfRange(ParamName::StdPar2, -90i32, 90i32));
        }
        if approx_eq(std_par_1.add(std_par_2), Fp(ZERO_BITS)) {
            return Err(
                ProjectionError::IncorrectParams(ParamsConstraint::StandardParallelsSumZero),
            );
        }

        let phi_0 = ref_lat.to_radians();
        let phi_1 = std_par_1.to_radians();
        let phi_2 = std_par_2.to_radians();

        let t_0 = t(phi_0, ellps);
        let t_1 = t(phi_1, ellps);
        let t_2 = t(phi_2, ellps);
        let m_1 = m(phi_1, ellps);
        let m_2 = m(phi_2, ellps);

        let n_value = if approx_eq(std_par_1, std_par_2) {
            phi_1.sin()
        } else {
            n(m_1, m_2, t_1, t_2)
        };
        let big_f_value = big_f(m_1, n_value, t_1);
        let rho_0 = rho(big_f_value, t_0, n_value, ellps);

        Ok(
            LambertConformalConic {
                lambda_0: ref_lon.to_radians(),
                n: n_value,
                big_f: big_f_value,
                rho_0,
                ellps,
            },
        )
    }

    /// Builds a [`ConversionPipe`] from this projection into `target`
    /// without performing any transform.
    pub fn pipe_to<T: Projection>(&self, target: &T) -> (r: ConversionPipe<
        LambertConformalConic,
        T,
    >)
        ensures
            r.source == *self,
            r.target == *target,
    {
        ConversionPipe::new(*self, *target)
    }
}

fn t(phi: Fp, ellps: Ellipsoid) -> (r: Fp)
    ensures
        r.0 == lcc_t(phi.0, ellps.E.0),
{
    Fp(FRAC_PI_4_BITS).sub(Fp(HALF_BITS).mul(phi)).tan().div(
        Fp(ONE_BITS).sub(ellps.E.mul(phi.sin())).div(
            Fp(ONE_BITS).add(ellps.E.mul(phi.sin())),
        ).powf(ellps.E.div(Fp(TWO_BITS))),
    )
}

fn m(phi: Fp, ellps: Ellipsoid) -> (r: Fp)
    ensures
        r.0 == lcc_m(phi.0, ellps.E.0),
{
    phi.cos().div(Fp(ONE_BITS).sub(ellps.E.sq().mul(phi.sin().sq())).sqrt())
}

fn n(m_1: Fp, m_2: Fp, t_1: Fp, t_2: Fp) -> (r: Fp)
    ensures
        r.0 == lcc_n(m_1.0, m_2.0, t_1.0, t_2.0),
{
    m_1.ln().sub(m_2.ln()).div(t_1.ln().sub(t_2.ln()))
}

fn big_f(m_1: Fp, n: Fp, t_1: Fp) -> (r: Fp)
    ensures
        r.0 == lcc_big_f(m_1.0, n.0, t_1.0),
{
    m_1.div(n.mul(t_1.powf(n)))
}

fn rho(big_f: Fp, t: Fp, n: Fp, ellps: Ellipsoid) -> (r: Fp)
    ensures
        r.0 == lcc_rho(big_f.0, t.0, n.0, ellps.A.0),
{
    ellps.A.mul(big_f).mul(t.powf(n))
}

/// To compute the phi for inverse projection a truncated infinite series is
/// used, with optimisations for reducing trigonometric function calls.
fn phi_for_inverse(t: Fp, ellps: Ellipsoid) -> (r: Fp)
    ensures
        r.0 == lcc_phi_for_inverse(t.0, ellps.E.0),
{
    let chi = Fp(FRAC_PI_2_BITS).sub(Fp(TWO_BITS).mul(t.atan()));
    let e2 = ellps.E.sq();
    let e4 = e2.sq();
    let e6 = e4.mul(e2);
    let e8 = e4.sq();

    let big_a = e2.div(Fp(TWO_BITS)).add(Fp(C5_BITS).mul(e4.div(Fp(C24_BITS)))).add(
        e6.div(Fp(C12_BITS)),
    ).add(Fp(C13_BITS).mul(e8.div(Fp(C360_BITS))));

    let big_b = Fp(C7_BITS).mul(e4.div(Fp(C48_BITS))).add(
        Fp(C29_BITS).mul(e6.div(Fp(C240_BITS))),
    ).add(Fp(C811_BITS).mul(e8.div(Fp(C11520_BITS))));

    let big_c = Fp(C7_BITS).mul(e6.div(Fp(C120_BITS))).add(
        Fp(C81_BITS).mul(e8.div(Fp(C1120_BITS))),
    );

    let big_d = Fp(C4279_BITS).mul(e8.div(Fp(C161280_BITS)));

    let a_prime = big_a.sub(big_c);
    let b_prime = Fp(TWO_BITS).mul(big_b).sub(Fp(C4_BITS).mul(big_d));
    let c_prime = Fp(C4_BITS).mul(big_c);
    let d_prime = Fp(C8_BITS).mul(big_d);

    let sin_2chi = Fp(TWO_BITS).mul(chi).sin();
    let cos_2chi = Fp(TWO_BITS).mul(chi).cos();

    chi.add(
        sin_2chi.mul(
            a_prime.add(cos_2chi.mul(b_prime.add(cos_2chi.mul(c_prime.add(d_prime.mul(cos_2chi)))))),
        ),
    )
}

/// The forward transform: the auxiliary value t at the input latitude, the
/// angle `theta = n (lambda - lambda_0)`, the radius `rho = A F t^n`, and
/// the planar pair `x = rho sin(theta)`, `y = rho_0 - rho cos(theta)`.
pub open spec fn lcc_fwd(p: LambertConformalConic, lon: u64, lat: u64) -> (u64, u64) {
    let phi = rad_bits(lat);
    let lambda = rad_bits(lon);
    let t = lcc_t(phi, p.ellps.E.0);
    let theta = mul_bits(p.n.0, sub_bits(lambda, p.lambda_0.0));
    let rho = lcc_rho(p.big_f.0, t, p.n.0, p.ellps.A.0);
    (mul_bits(rho, sin_bits(theta)), sub_bits(p.rho_0.0, mul_bits(rho, cos_bits(theta))))
}

/// The inverse transform: the radius recovered as `sign(n) hypot(x, rho_0 -
/// y)`, the angle recovered by the two-argument arc tangent after the
/// coordinates are adjusted by the sign of the cone constant (which handles
/// the southern-aspect cone), the auxiliary value `t = (rho/(A F))^(1/n)`,
/// and the latitude from the truncated series.
pub open spec fn lcc_inv(p: LambertConformalConic, x: u64, y: u64) -> (u64, u64) {
    let sign = signum_bits(p.n.0);
    let rho = mul_bits(sign, hypot_bits(x, sub_bits(p.rho_0.0, y)));
    let x_adj = mul_bits(x, sign);
    let y_adj = mul_bits(y, sign);
    let rho_0_adj = mul_bits(p.rho_0.0, sign);
    let theta = atan2_bits(x_adj, sub_bits(rho_0_adj, y_adj));
    let t = pow_bits(
        div_bits(rho, mul_bits(p.ellps.A.0, p.big_f.0)),
        div_bits(ONE_BITS, p.n.0),
    );
    let lambda = add_bits(div_bits(theta, p.n.0), p.lambda_0.0);
    let phi = lcc_phi_for_inverse(t, p.ellps.E.0);
    (deg_bits(lambda), deg_bits(phi))
}

/// Standard parallels approximately symmetric about the equator leave the
/// cone constant undefined, and construction rejects them: whenever the
/// parallels are finite, in range, and their sum is approximately zero, the
/// constructor returns exactly the structural error, whatever the other
/// parameters hold.
pub proof fn lemma_lcc_symmetric_parallels_rejected(
    ref_lon: u64,
    ref_lat: u64,
    std_par_1: u64,
    std_par_2: u64,
    ellps: Ellipsoid,
)
    requires
        is_finite_bits(ref_lon),
        is_finite_bits(ref_lat),
        is_finite_bits(std_par_1),
        is_finite_bits(std_par_2),
        in_lon_range_bits(ref_lon),
        in_lat_range_bits(ref_lat),
        in_lat_range_bits(std_par_1),
        in_lat_range_bits(std_par_2),
        approx_eq_bits(add_bits(std_par_1, std_par_2), ZERO_BITS),
    ensures
        lcc_new_spec(ref_lon, ref_lat, std_par_1, std_par_2, ellps) == Err::<
            LambertConformalConic,
            ProjectionError,
        >(ProjectionError::IncorrectParams(ParamsConstraint::StandardParallelsSumZero)),
{
}

/// Approximately equal standard parallels are the valid tangent-cone case:
/// construction succeeds and the cone constant is the sine of the first
/// standard parallel (in radians).
pub proof fn lemma_lcc_tangent_cone(
    ref_lon: u64,
    ref_lat: u64,
    std_par_1: u64,
    std_par_2: u64,
    ellps: Ellipsoid,
)
    requires
        is_finite_bits(ref_lon),
        is_finite_bits(ref_lat),
        is_finite_bits(std_par_1),
        is_finite_bits(std_par_2),
        in_lon_range_bits(ref_lon),
        in_lat_range_bits(ref_lat),
        in_lat_range_bits(std_par_1),
        in_lat_range_bits(std_par_2),
        approx_eq_bits(std_par_1, std_par_2),
        !approx_eq_bits(add_bits(std_par_1, std_par_2), ZERO_BITS),
    ensures
        lcc_new_spec(ref_lon, ref_lat, std_par_1, std_par_2, ellps) matches Ok(p) && p.n.0
            == sin_bits(rad_bits(std_par_1)),
{
}

/// Construction succeeds for every finite reference longitude in [-180,
/// 180), reference latitude and standard parallels in [-90, 90), provided
/// only that the parallels do not sum approximately to zero.
pub proof fn lemma_lcc_construction_succeeds(
    ref_lon: u64,
    ref_lat: u64,
    std_par_1: u64,
    std_par_2: u64,
    ellps: Ellipsoid,
)
    requires
        is_finite_bits(ref_lon),
        is_finite_bits(ref_lat),
        is_finite_bits(std_par_1),
        is_finite_bits(std_par_2),
        in_lon_range_bits(ref_lon),
        in_lat_range_bits(ref_lat),
        in_lat_range_bits(std_par_1),
        in_lat_range_bits(std_par_2),
        !approx_eq_bits(add_bits(std_par_1, std_par_2), ZERO_BITS),
    ensures
        lcc_new_spec(ref_lon, ref_lat, std_par_1, std_par_2, ellps) == Ok::<
            LambertConformalConic,
            ProjectionError,
        >(lcc_from_params(ref_lon, ref_lat, std_par_1, std_par_2, ellps)),
{
}

/// A finite parameter outside its canonical interval is rejected with a
/// range error, never accepted and never reported as a structural problem.
pub proof fn lemma_lcc_out_of_range_rejected(
    ref_lon: u64,
    ref_lat: u64,
    std_par_1: u64,
    std_par_2: u64,
    ellps: Ellipsoid,
)
    requires
        is_finite_bits(ref_lon),
        is_finite_bits(ref_lat),
        is_finite_bits(std_par_1),
        is_finite_bits(std_par_2),
        !(in_lon_range_bits(ref_lon) && in_lat_range_bits(ref_lat) && in_lat_range_bits(std_par_1)
            && in_lat_range_bits(std_par_2)),
    ensures
        lcc_new_spec(ref_lon, ref_lat, std_par_1, std_par_2, ellps) matches Err(
            ProjectionError::ParamOutOfRange(_, _, _),
        ),
{
}

impl Projection for LambertConformalConic {
    open spec fn fwd_spec(self, lon: u64, lat: u64) -> (u64, u64) {
        lcc_fwd(self, lon, lat)
    }

    open spec fn inv_spec(self, x: u64, y: u64) -> (u64, u64) {
        lcc_inv(self, x, y)
    }

    fn project_unchecked(&self, lon: Fp, lat: Fp) -> (r: (Fp, Fp)) {
        let phi = lat.to_radians();
        let lambda = lon.to_radians();

        let t = t(phi, self.ellps);
        let theta = self.n.mul(lambda.sub(self.lambda_0));
        let rho = rho(self.big_f, t, self.n, self.ellps);

        let x = rho.mul(theta.sin());
        let y = self.rho_0.sub(rho.mul(theta.cos()));

        (x, y)
    }

    fn inverse_project_unchecked(&self, x: Fp, y: Fp) -> (r: (Fp, Fp)) {
        let sign = self.n.signum();
        let rho = sign.mul(x.hypot(self.rho_0.sub(y)));

        // adjusting signs locally for theta
        let x_adj = x.mul(sign);
        let y_adj = y.mul(sign);
        let rho_0_adj = self.rho_0.mul(sign);
        let theta = x_adj.atan2(rho_0_adj.sub(y_adj));

        let t = rho.div(self.ellps.A.mul(self.big_f)).powf(Fp(ONE_BITS).div(self.n));

        let lambda = theta.div(self.n).add(self.lambda_0);
        let phi = phi_for_inverse(t, self.ellps);

        (lambda.to_degrees(), phi.to_degrees())
    }
}

} // verus!
