//! Reference ellipsoids for the projections.
//!
//! Values for the well-known ellipsoids are taken from the EPSG Geodetic
//! Parameter Dataset, Snyder's "Map projections: A working manual" and the
//! Proj documentation, and every derived quantity is computed by the same
//! formula `new` uses, so the stored constants are pinned exactly.

#![allow(non_snake_case)]

use crate::fp::{
    div_bits, mul_bits, sqrt_bits, sub_bits, Fp, ONE_BITS, ZERO_BITS,
};
use vstd::prelude::*;

verus! {

/// Semi-major axis of WGS84 (6378137.0 meters).
pub const WGS84_A_BITS: u64 = 0x4158_54A6_4000_0000;

/// Inverse flattening of WGS84 (298.257223563).
pub const WGS84_INV_F_BITS: u64 = 0x4072_A41D_9674_6D88;

/// Semi-major axis of GRS80 (6378137.0 meters).
pub const GRS80_A_BITS: u64 = 0x4158_54A6_4000_0000;

/// Inverse flattening of GRS80 (298.257222101).
pub const GRS80_INV_F_BITS: u64 = 0x4072_A41D_94EB_F9A8;

/// Semi-major axis of WGS72 (6378135.0 meters).
pub const WGS72_A_BITS: u64 = 0x4158_54A5_C000_0000;

/// Inverse flattening of WGS72 (298.26).
pub const WGS72_INV_F_BITS: u64 = 0x4072_A428_F5C2_8F5C;

/// Semi-major axis of GRS67 (6378160.0 meters).
pub const GRS67_A_BITS: u64 = 0x4158_54AC_0000_0000;

/// Inverse flattening of GRS67 (298.247167427).
pub const GRS67_INV_F_BITS: u64 = 0x4072_A3F4_65D4_F9A0;

/// Semi-major axis of Airy 1830 (6377563.396 meters).
pub const AIRY1830_A_BITS: u64 = 0x4158_5416_D958_1062;

/// Inverse flattening of Airy 1830 (299.3249646).
pub const AIRY1830_INV_F_BITS: u64 = 0x4072_B533_0E14_95B9;

/// Semi-major axis of WGS66 (6378145.0 meters).
pub const WGS66_A_BITS: u64 = 0x4158_54A8_4000_0000;

/// Inverse flattening of WGS66 (298.25).
pub const WGS66_INV_F_BITS: u64 = 0x4072_A400_0000_0000;

/// Semi-major axis of WGS60 (6378165.0 meters).
pub const WGS60_A_BITS: u64 = 0x4158_54AD_4000_0000;

/// Inverse flattening of WGS60 (298.3).
pub const WGS60_INV_F_BITS: u64 = 0x4072_A4CC_CCCC_CCCD;

/// Semi-major axis of Clarke 1866 (6378206.4 meters).
pub const CLARKE1866_A_BITS: u64 = 0x4158_54B7_9999_999A;

/// Inverse flattening of Clarke 1866 (294.9786982).
pub const CLARKE1866_INV_F_BITS: u64 = 0x4072_6FA8_BF71_9A77;

/// Radius of the authalic sphere used by the spherical projections
/// (6370997.0 meters).
pub const SPHERE_RADIUS_BITS: u64 = 0x4158_4DAD_4000_0000;

/// Ellipsoid struct that defines all values contained by reference
/// ellipsoids: semi-major axis `A` and semi-minor axis `B` in meters, first
/// eccentricity `E` and flattening `F`.
///
/// A degenerate sphere has `B == A` and `E == F == 0`.
#[derive(Clone, Copy, PartialEq, Eq, Structural, Debug)]
pub struct Ellipsoid {
    /// Ellipsoid semi-major axis.
    pub A: Fp,
    /// Ellipsoid semi-minor axis.
    pub B: Fp,
    /// Ellipsoid eccentricity.
    pub E: Fp,
    /// Ellipsoid flattening.
    pub F: Fp,
}

impl Ellipsoid {
    /// The ellipsoid derived from a semi-major axis `a` and an inverse
    /// flattening `i`: flattening `1/i`, semi-minor axis `a - a/i`, and
    /// eccentricity `sqrt(1 - (b/a)^2)` computed as `sqrt(1 - b*b/(a*a))`.
    pub open spec fn from_axis_spec(a: u64, inv_f: u64) -> Ellipsoid {
        let f = div_bits(ONE_BITS, inv_f);
        let b = sub_bits(a, div_bits(a, inv_f));
        let e = sqrt_bits(sub_bits(ONE_BITS, div_bits(mul_bits(b, b), mul_bits(a, a))));
        Ellipsoid { A: Fp(a), B: Fp(b), E: Fp(e), F: Fp(f) }
    }

    /// Ellipsoid constructor using semi-major axis and inverse flattening.
    ///
    /// The caller must guard against a zero or non-finite inverse flattening
    /// or a non-positive semi-major axis; for such arguments the derived
    /// fields are simply the (possibly non-finite) results of the defining
    /// formula.
    pub fn new(semi_major_axis: Fp, inverse_flattening: Fp) -> (r: Ellipsoid)
        ensures
            r == Ellipsoid::from_axis_spec(semi_major_axis.0, inverse_flattening.0),
    {
        let a = semi_major_axis;
        let i = inverse_flattening;
        let f = Fp(ONE_BITS).div(i);
        let b = a.sub(a.div(i));
        let e = Fp(ONE_BITS).sub(b.mul(b).div(a.mul(a))).sqrt();
        Ellipsoid { A: a, B: b, E: e, F: f }
    }

    /// Ellipsoid for a sphere with radius of 6,370,997.0 meters.
    pub fn sphere() -> (r: Ellipsoid)
        ensures
            r == (Ellipsoid {
                A: Fp(SPHERE_RADIUS_BITS),
                B: Fp(SPHERE_RADIUS_BITS),
                E: Fp(ZERO_BITS),
                F: Fp(ZERO_BITS),
            }),
    {
        Ellipsoid {
            A: Fp(SPHERE_RADIUS_BITS),
            B: Fp(SPHERE_RADIUS_BITS),
            E: Fp(ZERO_BITS),
            F: Fp(ZERO_BITS),
        }
    }

    /// World Geodetic System 1984 (WGS84) ellipsoid (EPSG:7030).
    pub fn wgs84() -> (r: Ellipsoid)
        ensures
            r == Ellipsoid::from_axis_spec(WGS84_A_BITS, WGS84_INV_F_BITS),
    {
        Ellipsoid::new(Fp(WGS84_A_BITS), Fp(WGS84_INV_F_BITS))
    }

    /// Geodetic Reference System 1980 (GRS 1980) ellipsoid (EPSG:7019).
    pub fn grs80() -> (r: Ellipsoid)
        ensures
            r == Ellipsoid::from_axis_spec(GRS80_A_BITS, GRS80_INV_F_BITS),
    {
        Ellipsoid::new(Fp(GRS80_A_BITS), Fp(GRS80_INV_F_BITS))
    }

    /// World Geodetic System 1972 (WGS72) ellipsoid (EPSG:7043).
    pub fn wgs72() -> (r: Ellipsoid)
        ensures
            r == Ellipsoid::from_axis_spec(WGS72_A_BITS, WGS72_INV_F_BITS),
    {
        Ellipsoid::new(Fp(WGS72_A_BITS), Fp(WGS72_INV_F_BITS))
    }

    /// Geodetic Reference System 1967 (GRS 1967) ellipsoid (EPSG:7036).
    pub fn grs67() -> (r: Ellipsoid)
        ensures
            r == Ellipsoid::from_axis_spec(GRS67_A_BITS, GRS67_INV_F_BITS),
    {
        Ellipsoid::new(Fp(GRS67_A_BITS), Fp(GRS67_INV_F_BITS))
    }

    /// Airy 1830 ellipsoid (EPSG:7001).
    pub fn airy1830() -> (r: Ellipsoid)
        ensures
            r == Ellipsoid::from_axis_spec(AIRY1830_A_BITS, AIRY1830_INV_F_BITS),
    {
        Ellipsoid::new(Fp(AIRY1830_A_BITS), Fp(AIRY1830_INV_F_BITS))
    }

    /// World Geodetic System 1966 (WGS66) ellipsoid.
    pub fn wgs66() -> (r: Ellipsoid)
        ensures
            r == Ellipsoid::from_axis_spec(WGS66_A_BITS, WGS66_INV_F_BITS),
    {
        Ellipsoid::new(Fp(WGS66_A_BITS), Fp(WGS66_INV_F_BITS))
    }

    /// World Geodetic System 1960 (WGS60) ellipsoid.
    pub fn wgs60() -> (r: Ellipsoid)
        ensures
            r == Ellipsoid::from_axis_spec(WGS60_A_BITS, WGS60_INV_F_BITS),
    {
        Ellipsoid::new(Fp(WGS60_A_BITS), Fp(WGS60_INV_F_BITS))
    }

    /// Clarke 1866 ellipsoid (EPSG:7008).
    pub fn clarke1866() -> (r: Ellipsoid)
        ensures
            r == Ellipsoid::from_axis_spec(CLARKE1866_A_BITS, CLARKE1866_INV_F_BITS),
    {
        Ellipsoid::new(Fp(CLARKE1866_A_BITS), Fp(CLARKE1866_INV_F_BITS))
    }
}

} // verus!
