//! Double-precision scalars for the projection formulas.
//!
//! Every coordinate, parameter and derived constant in this crate is an IEEE
//! 754 double-precision number, carried as its raw 64-bit pattern in [`Fp`].
//! Classification (finite / NaN), ordering and sign manipulation are ordinary
//! bit arithmetic and are implemented and verified here directly. Rounded
//! arithmetic and the transcendental functions cannot be restated in integer
//! terms; each one is a single trusted wrapper around a software or
//! libm-sourced implementation, and its result is named by an uninterpreted
//! spec function so that every formula built from these operations has an
//! exact, deterministic description.

use const_soft_float::soft_f64::SoftF64;
use vstd::prelude::*;

verus! {

/// A double-precision IEEE 754 value, held as its raw bit pattern.
///
/// Construct one from a native double with `Fp(value.to_bits())` and read it
/// back with `from_bits` on the caller's side; inside the crate all reasoning
/// is on the bit pattern itself.
#[derive(Clone, Copy, PartialEq, Eq, Structural, Debug, Default)]
pub struct Fp(pub u64);

// ---------------------------------------------------------------------------
// Field extraction and classification.
// ---------------------------------------------------------------------------

/// Sign bit of a double: 1 for negative values (including -0.0 and -inf).
pub open spec fn sign_of(b: u64) -> u64 {
    b >> 63
}

/// Biased exponent field (11 bits).
pub open spec fn exp_of(b: u64) -> u64 {
    (b >> 52) & 0x7FF
}

/// Fraction (significand) field (52 bits).
pub open spec fn frac_of(b: u64) -> u64 {
    b & 0x000F_FFFF_FFFF_FFFF
}

/// Magnitude: the bit pattern with the sign cleared.
pub open spec fn mag_of(b: u64) -> u64 {
    b & 0x7FFF_FFFF_FFFF_FFFF
}

/// A double is NaN when its exponent field is saturated and its fraction is
/// not zero.
pub open spec fn is_nan_bits(b: u64) -> bool {
    exp_of(b) == 0x7FF && frac_of(b) != 0
}

/// A double is finite when its exponent field is not saturated (neither an
/// infinity nor NaN).
pub open spec fn is_finite_bits(b: u64) -> bool {
    exp_of(b) != 0x7FF
}

/// The IEEE 754 ordering key of a non-NaN double: bit patterns of
/// non-negative doubles order as integers, negative doubles order reversed,
/// and both zeros map to 0. Comparing keys is exactly the `<` / `==` of the
/// floating-point format (with NaN excluded).
pub open spec fn key_of(b: u64) -> int {
    if sign_of(b) == 1 {
        -(mag_of(b) as int)
    } else {
        mag_of(b) as int
    }
}

/// IEEE 754 `<` on doubles: false whenever either side is NaN.
pub open spec fn lt_bits(a: u64, b: u64) -> bool {
    !is_nan_bits(a) && !is_nan_bits(b) && key_of(a) < key_of(b)
}

/// IEEE 754 `<=` on doubles: false whenever either side is NaN.
pub open spec fn le_bits(a: u64, b: u64) -> bool {
    !is_nan_bits(a) && !is_nan_bits(b) && key_of(a) <= key_of(b)
}

/// IEEE 754 `==` on doubles: +0.0 equals -0.0, NaN equals nothing.
pub open spec fn eq_bits(a: u64, b: u64) -> bool {
    !is_nan_bits(a) && !is_nan_bits(b) && key_of(a) == key_of(b)
}

/// Absolute value: clear the sign bit.
pub open spec fn abs_bits(b: u64) -> u64 {
    b & 0x7FFF_FFFF_FFFF_FFFF
}

/// Negation: flip the sign bit.
pub open spec fn neg_bits(b: u64) -> u64 {
    b ^ 0x8000_0000_0000_0000
}

/// Sign function: NaN for NaN, -1.0 for negative values (including -0.0),
/// +1.0 otherwise.
pub open spec fn signum_bits(b: u64) -> u64 {
    if is_nan_bits(b) {
        NAN_BITS
    } else if sign_of(b) == 1 {
        NEG_ONE_BITS
    } else {
        ONE_BITS
    }
}

// ---------------------------------------------------------------------------
// Common bit patterns. Each constant is the IEEE 754 double-precision
// encoding of the decimal value named in its comment.
// ---------------------------------------------------------------------------

/// 0.0
pub const ZERO_BITS: u64 = 0x0000_0000_0000_0000;

/// 1.0
pub const ONE_BITS: u64 = 0x3FF0_0000_0000_0000;

/// -1.0
pub const NEG_ONE_BITS: u64 = 0xBFF0_0000_0000_0000;

/// 0.5
pub const HALF_BITS: u64 = 0x3FE0_0000_0000_0000;

/// 2.0
pub const TWO_BITS: u64 = 0x4000_0000_0000_0000;

/// The quiet NaN that the sign function returns for NaN input.
pub const NAN_BITS: u64 = 0x7FF8_0000_0000_0000;

/// 90.0
pub const NINETY_BITS: u64 = 0x4056_8000_0000_0000;

/// -90.0
pub const NEG_NINETY_BITS: u64 = 0xC056_8000_0000_0000;

/// 180.0
pub const ONE_EIGHTY_BITS: u64 = 0x4066_8000_0000_0000;

/// -180.0
pub const NEG_ONE_EIGHTY_BITS: u64 = 0xC066_8000_0000_0000;

/// 360.0
pub const THREE_SIXTY_BITS: u64 = 0x4076_8000_0000_0000;

/// pi / 4
pub const FRAC_PI_4_BITS: u64 = 0x3FE9_21FB_5444_2D18;

/// pi / 2
pub const FRAC_PI_2_BITS: u64 = 0x3FF9_21FB_5444_2D18;

/// pi / 180, the factor that converts degrees to radians.
pub const RAD_PER_DEG_BITS: u64 = 0x3F91_DF46_A252_9D39;

/// 180 / pi, the factor that converts radians to degrees.
pub const DEG_PER_RAD_BITS: u64 = 0x404C_A5DC_1A63_C1F8;

/// 2^-52, the machine epsilon of the double format.
pub const EPSILON_BITS: u64 = 0x3CB0_0000_0000_0000;

// ---------------------------------------------------------------------------
// Coordinate ranges.
// ---------------------------------------------------------------------------

/// A longitude parameter is canonical when it lies in [-180, 180) degrees;
/// NaN lies in no range.
pub open spec fn in_lon_range_bits(b: u64) -> bool {
    le_bits(NEG_ONE_EIGHTY_BITS, b) && lt_bits(b, ONE_EIGHTY_BITS)
}

/// A latitude parameter is canonical when it lies in [-90, 90) degrees; NaN
/// lies in no range.
pub open spec fn in_lat_range_bits(b: u64) -> bool {
    le_bits(NEG_NINETY_BITS, b) && lt_bits(b, NINETY_BITS)
}

// ---------------------------------------------------------------------------
// Named results of the rounded and transcendental operations.
//
// IEEE 754 requires addition, subtraction, multiplication, division and
// square root to be exactly rounded, so each result below is a function of
// the operand bit patterns alone; the mathematical value cannot be written
// down in integer arithmetic, so the result is left uninterpreted. The
// transcendental functions are likewise pure functions of their argument
// bits (musl's libm algorithms, carried by the `libm` crate).
// ---------------------------------------------------------------------------

/// The rounded sum of two doubles.
pub uninterp spec fn add_bits(a: u64, b: u64) -> u64;

/// The rounded difference of two doubles.
pub uninterp spec fn sub_bits(a: u64, b: u64) -> u64;

/// The rounded product of two doubles.
pub uninterp spec fn mul_bits(a: u64, b: u64) -> u64;

/// The rounded quotient of two doubles.
pub uninterp spec fn div_bits(a: u64, b: u64) -> u64;

/// The correctly rounded square root of a double.
pub uninterp spec fn sqrt_bits(a: u64) -> u64;

/// The sine of a double (radians).
pub uninterp spec fn sin_bits(a: u64) -> u64;

/// The cosine of a double (radians).
pub uninterp spec fn cos_bits(a: u64) -> u64;

/// The tangent of a double (radians).
pub uninterp spec fn tan_bits(a: u64) -> u64;

/// The arc sine of a double, in radians.
pub uninterp spec fn asin_bits(a: u64) -> u64;

/// The arc tangent of a double, in radians.
pub uninterp spec fn atan_bits(a: u64) -> u64;

/// The two-argument arc tangent of y and x, in radians.
pub uninterp spec fn atan2_bits(y: u64, x: u64) -> u64;

/// The natural logarithm of a double.
pub uninterp spec fn ln_bits(a: u64) -> u64;

/// a raised to the power b.
pub uninterp spec fn pow_bits(a: u64, b: u64) -> u64;

/// The length of the hypotenuse of a right triangle with legs a and b.
pub uninterp spec fn hypot_bits(a: u64, b: u64) -> u64;

/// Degrees to radians: multiplication by pi/180.
pub open spec fn rad_bits(deg: u64) -> u64 {
    mul_bits(deg, RAD_PER_DEG_BITS)
}

/// Radians to degrees: multiplication by 180/pi.
pub open spec fn deg_bits(rad: u64) -> u64 {
    mul_bits(rad, DEG_PER_RAD_BITS)
}

// ---------------------------------------------------------------------------
// Executable operations.
// ---------------------------------------------------------------------------

impl Fp {
    /// True when the value is neither an infinity nor NaN.
    pub fn is_finite(self) -> (r: bool)
        ensures
            r == is_finite_bits(self.0),
    {
        (self.0 >> 52) & 0x7FF != 0x7FF
    }

    /// True when the value is NaN.
    pub fn is_nan(self) -> (r: bool)
        ensures
            r == is_nan_bits(self.0),
    {
        (self.0 >> 52) & 0x7FF == 0x7FF && self.0 & 0x000F_FFFF_FFFF_FFFF != 0
    }

    /// IEEE 754 `<`: sign-magnitude comparison of the bit patterns, false on
    /// NaN, treating -0.0 and +0.0 as equal.
    pub fn lt(self, other: Fp) -> (r: bool)
        ensures
            r == lt_bits(self.0, other.0),
    {
        if self.is_nan() || other.is_nan() {
            false
        } else {
            let sa: u64 = self.0 >> 63;
            let sb: u64 = other.0 >> 63;
            let ma: u64 = self.0 & 0x7FFF_FFFF_FFFF_FFFF;
            let mb: u64 = other.0 & 0x7FFF_FFFF_FFFF_FFFF;
            if sa == 1 {
                if sb == 1 {
                    mb < ma
                } else {
                    ma != 0 || mb != 0
                }
            } else {
                if sb == 1 {
                    false
                } else {
                    ma < mb
                }
            }
        }
    }

    /// IEEE 754 `<=`: false on NaN, treating -0.0 and +0.0 as equal.
    pub fn le(self, other: Fp) -> (r: bool)
        ensures
            r == le_bits(self.0, other.0),
    {
        if self.is_nan() || other.is_nan() {
            false
        } else {
            !other.lt(self)
        }
    }

    /// Absolute value: clears the sign bit, exactly as the double format
    /// defines it.
    pub fn abs(self) -> (r: Fp)
        ensures
            r.0 == abs_bits(self.0),
    {
        Fp(self.0 & 0x7FFF_FFFF_FFFF_FFFF)
    }

    /// Negation: flips the sign bit, exactly as the double format defines it.
    pub fn neg(self) -> (r: Fp)
        ensures
            r.0 == neg_bits(self.0),
    {
        Fp(self.0 ^ 0x8000_0000_0000_0000)
    }

    /// Sign function: NaN for NaN, -1.0 for negative values (including
    /// -0.0), +1.0 otherwise.
    pub fn signum(self) -> (r: Fp)
        ensures
            r.0 == signum_bits(self.0),
    {
        if self.is_nan() {
            Fp(NAN_BITS)
        } else if self.0 >> 63 == 1 {
            Fp(NEG_ONE_BITS)
        } else {
            Fp(ONE_BITS)
        }
    }

    /// Degrees to radians: multiplication by pi/180, the same constant the
    /// standard conversion uses.
    pub fn to_radians(self) -> (r: Fp)
        ensures
            r.0 == mul_bits(self.0, RAD_PER_DEG_BITS),
    {
        self.mul(Fp(RAD_PER_DEG_BITS))
    }

    /// Radians to degrees: multiplication by 180/pi, the same constant the
    /// standard conversion uses.
    pub fn to_degrees(self) -> (r: Fp)
        ensures
            r.0 == mul_bits(self.0, DEG_PER_RAD_BITS),
    {
        self.mul(Fp(DEG_PER_RAD_BITS))
    }

    /// True when the value is a canonical longitude parameter, in [-180,
    /// 180) degrees.
    pub fn in_lon_range(self) -> (r: bool)
        ensures
            r == in_lon_range_bits(self.0),
    {
        Fp(NEG_ONE_EIGHTY_BITS).le(self) && self.lt(Fp(ONE_EIGHTY_BITS))
    }

    /// True when the value is a canonical latitude parameter, in [-90, 90)
    /// degrees.
    pub fn in_lat_range(self) -> (r: bool)
        ensures
            r == in_lat_range_bits(self.0),
    {
        Fp(NEG_NINETY_BITS).le(self) && self.lt(Fp(NINETY_BITS))
    }

    /// The square of a value.
    pub fn sq(self) -> (r: Fp)
        ensures
            r.0 == mul_bits(self.0, self.0),
    {
        self.mul(self)
    }
}

// ---------------------------------------------------------------------------
// Trusted wrappers. Each one performs exactly one floating-point operation
// on the bit patterns and is the sole place its named result is produced.
// ---------------------------------------------------------------------------

impl Fp {
    /// Relies on const_soft_float's SoftF64::add: exactly rounded IEEE 754
    /// addition of the two operands.
    #[verifier::external_body]
    pub(crate) fn add(self, other: Fp) -> (r: Fp)
        ensures
            r.0 == add_bits(self.0, other.0),
    {
        Fp(SoftF64::from_bits(self.0).add(SoftF64::from_bits(other.0)).to_bits())
    }

    /// Relies on const_soft_float's SoftF64::sub: exactly rounded IEEE 754
    /// subtraction.
    #[verifier::external_body]
    pub(crate) fn sub(self, other: Fp) -> (r: Fp)
        ensures
            r.0 == sub_bits(self.0, other.0),
    {
        Fp(SoftF64::from_bits(self.0).sub(SoftF64::from_bits(other.0)).to_bits())
    }

    /// Relies on const_soft_float's SoftF64::mul: exactly rounded IEEE 754
    /// multiplication.
    #[verifier::external_body]
    pub(crate) fn mul(self, other: Fp) -> (r: Fp)
        ensures
            r.0 == mul_bits(self.0, other.0),
    {
        Fp(SoftF64::from_bits(self.0).mul(SoftF64::from_bits(other.0)).to_bits())
    }

    /// Relies on const_soft_float's SoftF64::div: exactly rounded IEEE 754
    /// division.
    #[verifier::external_body]
    pub(crate) fn div(self, other: Fp) -> (r: Fp)
        ensures
            r.0 == div_bits(self.0, other.0),
    {
        Fp(SoftF64::from_bits(self.0).div(SoftF64::from_bits(other.0)).to_bits())
    }

    /// Relies on const_soft_float's SoftF64::sqrt: the correctly rounded
    /// IEEE 754 square root.
    #[verifier::external_body]
    pub(crate) fn sqrt(self) -> (r: Fp)
        ensures
            r.0 == sqrt_bits(self.0),
    {
        Fp(SoftF64::from_bits(self.0).sqrt().to_bits())
    }

    /// Relies on libm::sin: the sine, a function of the argument bits alone.
    #[verifier::external_body]
    pub(crate) fn sin(self) -> (r: Fp)
        ensures
            r.0 == sin_bits(self.0),
    {
        Fp(libm::sin(SoftF64::from_bits(self.0).to_f64()).to_bits())
    }

    /// Relies on libm::cos: the cosine, a function of the argument bits
    /// alone.
    #[verifier::external_body]
    pub(crate) fn cos(self) -> (r: Fp)
        ensures
            r.0 == cos_bits(self.0),
    {
        Fp(libm::cos(SoftF64::from_bits(self.0).to_f64()).to_bits())
    }

    /// Relies on libm::tan: the tangent, a function of the argument bits
    /// alone.
    #[verifier::external_body]
    pub(crate) fn tan(self) -> (r: Fp)
        ensures
            r.0 == tan_bits(self.0),
    {
        Fp(libm::tan(SoftF64::from_bits(self.0).to_f64()).to_bits())
    }

    /// Relies on libm::asin: the arc sine, a function of the argument bits
    /// alone.
    #[verifier::external_body]
    pub(crate) fn asin(self) -> (r: Fp)
        ensures
            r.0 == asin_bits(self.0),
    {
        Fp(libm::asin(SoftF64::from_bits(self.0).to_f64()).to_bits())
    }

    /// Relies on libm::atan: the arc tangent, a function of the argument
    /// bits alone.
    #[verifier::external_body]
    pub(crate) fn atan(self) -> (r: Fp)
        ensures
            r.0 == atan_bits(self.0),
    {
        Fp(libm::atan(SoftF64::from_bits(self.0).to_f64()).to_bits())
    }

    /// Relies on libm::atan2: the two-argument arc tangent of self and x, a
    /// function of the argument bits alone.
    #[verifier::external_body]
    pub(crate) fn atan2(self, x: Fp) -> (r: Fp)
        ensures
            r.0 == atan2_bits(self.0, x.0),
    {
        Fp(libm::atan2(SoftF64::from_bits(self.0).to_f64(), SoftF64::from_bits(x.0).to_f64())
            .to_bits())
    }

    /// Relies on libm::log: the natural logarithm, a function of the
    /// argument bits alone.
    #[verifier::external_body]
    pub(crate) fn ln(self) -> (r: Fp)
        ensures
            r.0 == ln_bits(self.0),
    {
        Fp(libm::log(SoftF64::from_bits(self.0).to_f64()).to_bits())
    }

    /// Relies on libm::pow: self raised to the power b, a function of the
    /// argument bits alone.
    #[verifier::external_body]
    pub(crate) fn powf(self, b: Fp) -> (r: Fp)
        ensures
            r.0 == pow_bits(self.0, b.0),
    {
        Fp(libm::pow(SoftF64::from_bits(self.0).to_f64(), SoftF64::from_bits(b.0).to_f64())
            .to_bits())
    }

    /// Relies on libm::hypot: the hypotenuse length of self and b, a
    /// function of the argument bits alone.
    #[verifier::external_body]
    pub(crate) fn hypot(self, b: Fp) -> (r: Fp)
        ensures
            r.0 == hypot_bits(self.0, b.0),
    {
        Fp(libm::hypot(SoftF64::from_bits(self.0).to_f64(), SoftF64::from_bits(b.0).to_f64())
            .to_bits())
    }
}

// ---------------------------------------------------------------------------
// Approximate equality, as float-cmp defines it.
// ---------------------------------------------------------------------------

/// float-cmp's ordered view of a double's bits: reinterprets the pattern so
/// that integer order matches floating-point order.
pub open spec fn ordered_bits(b: u64) -> u64 {
    if b & 0x8000_0000_0000_0000 != 0 {
        !b
    } else {
        b ^ 0x8000_0000_0000_0000
    }
}

/// The value of a 64-bit pattern read as a two's-complement signed integer.
pub open spec fn signed64(x: u64) -> int {
    if x >= 0x8000_0000_0000_0000 {
        x as int - 0x1_0000_0000_0000_0000
    } else {
        x as int
    }
}

/// Wrap an integer into the signed 64-bit range, as a wrapping subtraction
/// of two such integers does.
pub open spec fn wrap_i64(x: int) -> int {
    if x < -0x8000_0000_0000_0000 {
        x + 0x1_0000_0000_0000_0000
    } else if x >= 0x8000_0000_0000_0000 {
        x - 0x1_0000_0000_0000_0000
    } else {
        x
    }
}

/// float-cmp's ULP distance: the wrapping difference of the ordered bit
/// patterns, read as signed 64-bit integers.
pub open spec fn ulps_diff(a: u64, b: u64) -> int {
    wrap_i64(signed64(ordered_bits(a)) - signed64(ordered_bits(b)))
}

/// float-cmp's saturating absolute value of the ULP distance.
pub open spec fn ulps_distance(a: u64, b: u64) -> int {
    let d = ulps_diff(a, b);
    if d < 0 {
        if d == -0x8000_0000_0000_0000 {
            0x7FFF_FFFF_FFFF_FFFF
        } else {
            -d
        }
    } else {
        d
    }
}

/// Approximate equality with float-cmp's default margin: exact equality, or
/// a difference of at most the machine epsilon, or at most 4 ULPs apart.
pub open spec fn approx_eq_bits(a: u64, b: u64) -> bool {
    eq_bits(a, b) || le_bits(abs_bits(sub_bits(a, b)), EPSILON_BITS) || ulps_distance(a, b) <= 4
}

/// Relies on float-cmp's ApproxEq for doubles with the default margin
/// (epsilon 2^-52, 4 ULPs): equality, epsilon and ULP tests exactly as
/// spelled out by `approx_eq_bits`.
#[verifier::external_body]
pub(crate) fn approx_eq(a: Fp, b: Fp) -> (r: bool)
    ensures
        r == approx_eq_bits(a.0, b.0),
{
    float_cmp::ApproxEq::approx_eq(
        SoftF64::from_bits(a.0).to_f64(),
        SoftF64::from_bits(b.0).to_f64(),
        float_cmp::F64Margin::default(),
    )
}

} // verus!
