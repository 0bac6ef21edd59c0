//! IEEE 754 single-precision values held as their bit patterns.
//!
//! Weights and calibration factors travel through this crate as `Binary32`.
//! What the crate decides about such a value (whether it is a number, whether
//! it is zero, how its size compares with a bound, which bytes encode it) is
//! read off the bit pattern; arithmetic on the values is left to the caller.
use vstd::prelude::*;
use vstd::arithmetic::power2::{lemma_pow2_pos, lemma_pow2_strictly_increases, lemma_pow2_unfold, pow2};
use crate::bytes::{be_value, le_bytes, le_value, u32_from_be_bytes, u32_from_le_bytes, u32_to_le_bytes};

verus! {

/// Bit pattern of the machine epsilon, 2^-23.
pub const EPSILON_BITS: u32 = 0x3400_0000;

/// Bit pattern of 1.0.
pub const ONE_BITS: u32 = 0x3F80_0000;

/// Bit pattern of positive infinity; larger magnitudes are not numbers.
pub const INFINITY_BITS: u32 = 0x7F80_0000;

/// A single-precision value: sign in bit 31, biased exponent in bits 30 to 23,
/// fraction in bits 22 to 0.
///
/// `==` compares bit patterns, so 0.0 and -0.0 differ and a NaN equals itself.
#[derive(Clone, Copy, Debug, PartialEq, Eq, Structural)]
pub struct Binary32 {
    /// The bit pattern.
    pub bits: u32,
}

impl Binary32 {
    /// The bit pattern without its sign bit. Among numbers, a larger
    /// magnitude is a larger absolute value.
    pub open spec fn magnitude(self) -> nat {
        (self.bits % 0x8000_0000) as nat
    }

    /// The biased exponent: bits 30 to 23.
    pub open spec fn exponent(self) -> nat {
        ((self.bits / 0x80_0000) % 0x100) as nat
    }

    /// The fraction: bits 22 to 0.
    pub open spec fn fraction(self) -> nat {
        (self.bits % 0x80_0000) as nat
    }

    /// The absolute value of a finite number, counted in units of 2^-149:
    /// the fraction of a subnormal number, and the fraction with its leading
    /// one, scaled by the exponent, of a normal number.
    pub open spec fn scaled_abs(self) -> nat {
        if self.exponent() == 0 {
            self.fraction()
        } else {
            (0x80_0000 + self.fraction()) * pow2((self.exponent() - 1) as nat)
        }
    }

    /// The sign bit is set.
    pub open spec fn spec_is_sign_negative(self) -> bool {
        self.bits >= 0x8000_0000
    }

    /// The value is not a number.
    pub open spec fn spec_is_nan(self) -> bool {
        self.magnitude() > INFINITY_BITS
    }

    /// The value is neither infinite nor NaN.
    pub open spec fn spec_is_finite(self) -> bool {
        self.magnitude() < INFINITY_BITS
    }

    /// The value is 0.0 or -0.0.
    pub open spec fn spec_is_zero(self) -> bool {
        self.magnitude() == 0
    }

    /// The value compares less than or equal to zero: it is a zero, a
    /// negative number or negative infinity.
    pub open spec fn spec_is_at_most_zero(self) -> bool {
        !self.spec_is_nan() && (self.spec_is_zero() || self.spec_is_sign_negative())
    }

    /// The absolute value compares less than that of `bound`; false where
    /// either is not a number.
    pub open spec fn spec_abs_lt(self, bound: Binary32) -> bool {
        !self.spec_is_nan() && !bound.spec_is_nan() && self.magnitude() < bound.magnitude()
    }

    /// Wraps a bit pattern.
    pub fn from_bits(bits: u32) -> (value: Binary32)
        ensures
            value.bits == bits,
    {
        Binary32 { bits }
    }

    /// The bit pattern.
    pub fn to_bits(self) -> (bits: u32)
        ensures
            bits == self.bits,
    {
        self.bits
    }

    /// The bit pattern without its sign bit.
    pub fn abs_bits(self) -> (m: u32)
        ensures
            m == self.magnitude(),
    {
        self.bits % 0x8000_0000
    }

    /// Whether the sign bit is set.
    pub fn is_sign_negative(self) -> (r: bool)
        ensures
            r == self.spec_is_sign_negative(),
    {
        self.bits >= 0x8000_0000
    }

    /// Whether the value is not a number.
    pub fn is_nan(self) -> (r: bool)
        ensures
            r == self.spec_is_nan(),
    {
        self.abs_bits() > INFINITY_BITS
    }

    /// Whether the value is neither infinite nor NaN.
    pub fn is_finite(self) -> (r: bool)
        ensures
            r == self.spec_is_finite(),
    {
        self.abs_bits() < INFINITY_BITS
    }

    /// Whether the value is 0.0 or -0.0.
    pub fn is_zero(self) -> (r: bool)
        ensures
            r == self.spec_is_zero(),
    {
        self.abs_bits() == 0
    }

    /// Whether the value compares less than or equal to zero.
    pub fn is_at_most_zero(self) -> (r: bool)
        ensures
            r == self.spec_is_at_most_zero(),
    {
        !self.is_nan() && (self.is_zero() || self.is_sign_negative())
    }

    /// Whether the absolute value compares less than that of `bound`.
    pub fn abs_lt(self, bound: Binary32) -> (r: bool)
        ensures
            r == self.spec_abs_lt(bound),
    {
        !self.is_nan() && !bound.is_nan() && self.abs_bits() < bound.abs_bits()
    }

    /// The four bytes of the value, least significant first.
    pub fn to_le_bytes(self) -> (bytes: [u8; 4])
        ensures
            bytes@ == le_bytes(self.bits),
    {
        u32_to_le_bytes(self.bits)
    }

    /// The value whose bytes are given least significant first.
    pub fn from_le_bytes(bytes: [u8; 4]) -> (value: Binary32)
        ensures
            value.bits == le_value(bytes@),
    {
        Binary32 { bits: u32_from_le_bytes(bytes) }
    }

    /// The value whose bytes are given most significant first.
    pub fn from_be_bytes(bytes: [u8; 4]) -> (value: Binary32)
        ensures
            value.bits == be_value(bytes@),
    {
        Binary32 { bits: u32_from_be_bytes(bytes) }
    }
}

/// Among finite numbers the magnitude of the bit pattern orders the
/// absolute values: a smaller magnitude is a smaller absolute value, and
/// the zeros are the numbers of magnitude zero.
pub proof fn lemma_magnitude_orders_abs(a: Binary32, b: Binary32)
    requires
        a.spec_is_finite(),
        b.spec_is_finite(),
    ensures
        a.magnitude() < b.magnitude() <==> a.scaled_abs() < b.scaled_abs(),
        a.magnitude() == b.magnitude() <==> a.scaled_abs() == b.scaled_abs(),
        a.spec_is_zero() <==> a.scaled_abs() == 0,
{
    if a.magnitude() < b.magnitude() {
        lemma_scaled_abs_increases(a, b);
    } else if b.magnitude() < a.magnitude() {
        lemma_scaled_abs_increases(b, a);
    } else {
        assert(a.exponent() == b.exponent() && a.fraction() == b.fraction());
    }
    if a.exponent() > 0 {
        lemma_pow2_pos((a.exponent() - 1) as nat);
        let scale = pow2((a.exponent() - 1) as nat) as int;
        let significand = 0x80_0000 + a.fraction() as int;
        assert(significand * scale > 0) by (nonlinear_arith)
            requires
                significand > 0,
                scale > 0,
        ;
    }
}

/// A finite number of smaller magnitude has the smaller absolute value.
proof fn lemma_scaled_abs_increases(a: Binary32, b: Binary32)
    requires
        a.magnitude() < b.magnitude() < INFINITY_BITS,
    ensures
        a.scaled_abs() < b.scaled_abs(),
{
    let (ea, fa) = (a.exponent(), a.fraction() as int);
    let (eb, fb) = (b.exponent(), b.fraction() as int);
    assert(a.magnitude() == ea * 0x80_0000 + fa);
    assert(b.magnitude() == eb * 0x80_0000 + fb);
    assert(ea <= eb);
    if ea == eb {
        if ea > 0 {
            lemma_pow2_pos((ea - 1) as nat);
            let scale = pow2((ea - 1) as nat) as int;
            assert((0x80_0000 + fa) * scale < (0x80_0000 + fb) * scale) by (nonlinear_arith)
                requires
                    fa < fb,
                    scale > 0,
            ;
        }
    } else {
        let scale_b = pow2((eb - 1) as nat) as int;
        lemma_pow2_pos((eb - 1) as nat);
        assert(0x80_0000 * scale_b <= (0x80_0000 + fb) * scale_b) by (nonlinear_arith)
            requires
                fb >= 0,
                scale_b > 0,
        ;
        if ea == 0 {
            assert(0x80_0000 <= 0x80_0000 * scale_b) by (nonlinear_arith)
                requires
                    scale_b > 0,
            ;
        } else {
            let scale_a = pow2((ea - 1) as nat) as int;
            lemma_pow2_pos((ea - 1) as nat);
            lemma_pow2_unfold(ea);
            assert(pow2(ea) == 2 * scale_a);
            if ea < eb - 1 {
                lemma_pow2_strictly_increases(ea, (eb - 1) as nat);
            }
            assert(2 * scale_a <= scale_b);
            assert((0x80_0000 + fa) * scale_a < 0x80_0000 * scale_b) by (nonlinear_arith)
                requires
                    fa < 0x80_0000,
                    scale_a > 0,
                    2 * scale_a <= scale_b,
            ;
        }
    }
}

/// The machine epsilon is 2^-23, which is 2^126 units of 2^-149.
pub proof fn lemma_epsilon_value()
    ensures
        (Binary32 { bits: EPSILON_BITS }).spec_is_finite(),
        (Binary32 { bits: EPSILON_BITS }).scaled_abs() == pow2(126),
{
    let epsilon = Binary32 { bits: EPSILON_BITS };
    assert(epsilon.exponent() == 104);
    assert(epsilon.fraction() == 0);
    vstd::arithmetic::power2::lemma2_to64();
    vstd::arithmetic::power2::lemma_pow2_adds(23, 103);
}

} // verus!
