//! The parts of a floating-point number as its bits hold them: a sign, an
//! exponent with its bias, and a mantissa. The bit patterns are taken and
//! given as unsigned integers of the same width.

use vstd::arithmetic::power2::{lemma2_to64, lemma2_to64_rest, pow2};
use vstd::prelude::*;

verus! {

/// Bit patterns of floating-point numbers of one width: from the top a
/// sign bit, the bits of the exponent, and the bits of the mantissa.
pub trait FloatBits: Copy + Sized {
    /// The number that the bits stand for, as an integer.
    spec fn pattern(self) -> nat;

    /// The number of values of the exponent field: two to the power of
    /// its number of bits.
    spec fn exponent_span() -> nat;

    /// The number of values of the mantissa field: two to the power of
    /// its number of bits.
    spec fn mantissa_span() -> nat;

    /// The number of bits in the exponent: the exponent field takes two
    /// to the power of it values.
    fn exponent_bits() -> (bits: Self)
        ensures
            pow2(bits.pattern()) == Self::exponent_span(),
    ;

    /// The number of bits in the mantissa, without the leading bit that is
    /// implied: the mantissa field takes two to the power of it values.
    fn mantissa_bits() -> (bits: Self)
        ensures
            pow2(bits.pattern()) == Self::mantissa_span(),
    ;

    /// The bias of the exponent: the greatest value of the lower half of
    /// the exponent field.
    fn exponent_bias() -> (bias: Self)
        ensures
            2 * bias.pattern() + 2 == Self::exponent_span(),
    ;

    /// Whether the sign bit is set.
    fn sign(self) -> (sign: bool)
        ensures
            sign == (self.pattern() / (Self::exponent_span() * Self::mantissa_span()) == 1),
    ;

    /// The bits of the exponent, with its bias.
    fn raw_exponent(self) -> (raw_exponent: Self)
        ensures
            raw_exponent.pattern() == self.pattern() / Self::mantissa_span()
                % Self::exponent_span(),
    ;

    /// The bits of the mantissa.
    fn mantissa(self) -> (mantissa: Self)
        ensures
            mantissa.pattern() == self.pattern() % Self::mantissa_span(),
    ;

    /// The pattern with the given parts. The parts must fit their fields.
    fn from_raw_components(sign: bool, raw_exponent: Self, mantissa: Self) -> (bits: Self)
        requires
            raw_exponent.pattern() < Self::exponent_span(),
            mantissa.pattern() < Self::mantissa_span(),
        ensures
            bits.pattern() == (if sign {
                1nat
            } else {
                0nat
            }) * (Self::exponent_span() * Self::mantissa_span()) + raw_exponent.pattern()
                * Self::mantissa_span() + mantissa.pattern(),
    ;

    /// The sign, the exponent and the mantissa of the pattern. They fit
    /// their fields, and put together again they give the pattern.
    fn to_raw_components(self) -> (parts: (bool, Self, Self))
        ensures
            parts.1.pattern() < Self::exponent_span(),
            parts.2.pattern() < Self::mantissa_span(),
            self.pattern() == (if parts.0 {
                1nat
            } else {
                0nat
            }) * (Self::exponent_span() * Self::mantissa_span()) + parts.1.pattern()
                * Self::mantissa_span() + parts.2.pattern(),
    ;
}

/// The bit patterns of numbers of double precision: 11 bits of exponent
/// and 52 bits of mantissa.
impl FloatBits for u64 {
    open spec fn pattern(self) -> nat {
        self as nat
    }

    open spec fn exponent_span() -> nat {
        0x800
    }

    open spec fn mantissa_span() -> nat {
        0x10_0000_0000_0000
    }

    fn exponent_bits() -> (bits: Self)
        ensures
            bits == 11,
    {
        proof {
            lemma2_to64();
        }
        11
    }

    fn mantissa_bits() -> (bits: Self)
        ensures
            bits == 52,
    {
        proof {
            lemma2_to64_rest();
        }
        52
    }

    fn exponent_bias() -> (bias: Self)
        ensures
            bias == 1023,
    {
        1023
    }

    fn sign(self) -> (sign: bool) {
        assert((self & (1u64 << 63) != 0) == (self / 0x8000_0000_0000_0000 == 1)) by (bit_vector);
        assert(0x800 * 0x10_0000_0000_0000 == 0x8000_0000_0000_0000) by (nonlinear_arith);
        self & (1u64 << 63) != 0
    }

    fn raw_exponent(self) -> (raw_exponent: Self) {
        assert((self >> 52) & 0x7ffu64 == self / 0x10_0000_0000_0000 % 0x800)
            by (bit_vector);
        (self >> 52) & 0x7ffu64
    }

    fn mantissa(self) -> (mantissa: Self) {
        assert(self & 0xf_ffff_ffff_ffffu64 == self % 0x10_0000_0000_0000) by (bit_vector);
        self & 0xf_ffff_ffff_ffffu64
    }

    fn from_raw_components(sign: bool, raw_exponent: Self, mantissa: Self) -> (bits: Self) {
        let sign_bits: u64 = if sign {
            1u64 << 63
        } else {
            0
        };
        let high: u64 = if sign {
            1
        } else {
            0
        };
        assert(sign_bits == high * 0x8000_0000_0000_0000) by (bit_vector)
            requires
                sign_bits == (if high == 1 {
                    1u64 << 63
                } else {
                    0
                }),
                high == 0 || high == 1,
        ;
        assert((sign_bits | (raw_exponent << 52) | mantissa) == high * 0x8000_0000_0000_0000
            + raw_exponent * 0x10_0000_0000_0000 + mantissa) by (bit_vector)
            requires
                sign_bits == high * 0x8000_0000_0000_0000,
                high == 0 || high == 1,
                raw_exponent < 0x800,
                mantissa < 0x10_0000_0000_0000,
        ;
        assert(0x800 * 0x10_0000_0000_0000 == 0x8000_0000_0000_0000) by (nonlinear_arith);
        sign_bits | (raw_exponent << 52) | mantissa
    }

    fn to_raw_components(self) -> (parts: (bool, Self, Self)) {
        let sign = self.sign();
        let raw_exponent = self.raw_exponent();
        let mantissa = self.mantissa();
        assert(self == self / 0x8000_0000_0000_0000 * 0x8000_0000_0000_0000 + self
            / 0x10_0000_0000_0000 % 0x800 * 0x10_0000_0000_0000 + self % 0x10_0000_0000_0000)
            by (bit_vector);
        assert(self / 0x8000_0000_0000_0000 == 0 || self / 0x8000_0000_0000_0000 == 1)
            by (bit_vector);
        assert(0x800 * 0x10_0000_0000_0000 == 0x8000_0000_0000_0000) by (nonlinear_arith);
        (sign, raw_exponent, mantissa)
    }
}

/// The bit patterns of numbers of single precision: 8 bits of exponent
/// and 23 bits of mantissa.
impl FloatBits for u32 {
    open spec fn pattern(self) -> nat {
        self as nat
    }

    open spec fn exponent_span() -> nat {
        0x100
    }

    open spec fn mantissa_span() -> nat {
        0x80_0000
    }

    fn exponent_bits() -> (bits: Self)
        ensures
            bits == 8,
    {
        proof {
            lemma2_to64();
        }
        8
    }

    fn mantissa_bits() -> (bits: Self)
        ensures
            bits == 23,
    {
        proof {
            lemma2_to64();
        }
        23
    }

    fn exponent_bias() -> (bias: Self)
        ensures
            bias == 127,
    {
        127
    }

    fn sign(self) -> (sign: bool) {
        assert((self & (1u32 << 31) != 0) == (self / 0x8000_0000 == 1)) by (bit_vector);
        assert(0x100 * 0x80_0000 == 0x8000_0000) by (nonlinear_arith);
        self & (1u32 << 31) != 0
    }

    fn raw_exponent(self) -> (raw_exponent: Self) {
        assert((self >> 23) & 0xffu32 == self / 0x80_0000 % 0x100) by (bit_vector);
        (self >> 23) & 0xffu32
    }

    fn mantissa(self) -> (mantissa: Self) {
        assert(self & 0x7f_ffffu32 == self % 0x80_0000) by (bit_vector);
        self & 0x7f_ffffu32
    }

    fn from_raw_components(sign: bool, raw_exponent: Self, mantissa: Self) -> (bits: Self) {
        let sign_bits: u32 = if sign {
            1u32 << 31
        } else {
            0
        };
        let high: u32 = if sign {
            1
        } else {
            0
        };
        assert(sign_bits == high * 0x8000_0000) by (bit_vector)
            requires
                sign_bits == (if high == 1 {
                    1u32 << 31
                } else {
                    0
                }),
                high == 0 || high == 1,
        ;
        assert((sign_bits | (raw_exponent << 23) | mantissa) == high * 0x8000_0000 + raw_exponent
            * 0x80_0000 + mantissa) by (bit_vector)
            requires
                sign_bits == high * 0x8000_0000,
                high == 0 || high == 1,
                raw_exponent < 0x100,
                mantissa < 0x80_0000,
        ;
        assert(0x100 * 0x80_0000 == 0x8000_0000) by (nonlinear_arith);
        sign_bits | (raw_exponent << 23) | mantissa
    }

    fn to_raw_components(self) -> (parts: (bool, Self, Self)) {
        let sign = self.sign();
        let raw_exponent = self.raw_exponent();
        let mantissa = self.mantissa();
        assert(self == self / 0x8000_0000 * 0x8000_0000 + self / 0x80_0000 % 0x100 * 0x80_0000
            + self % 0x80_0000) by (bit_vector);
        assert(self / 0x8000_0000 == 0 || self / 0x8000_0000 == 1) by (bit_vector);
        assert(0x100 * 0x80_0000 == 0x8000_0000) by (nonlinear_arith);
        (sign, raw_exponent, mantissa)
    }
}

} // verus!
