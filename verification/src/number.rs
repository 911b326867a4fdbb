//! Numeric values: IEEE 754 double-precision numbers, held as their bit pattern.
//!
//! The core never computes with numbers. It creates zero, carries numbers
//! around, and turns one into an exit code. All of that can be said exactly
//! over the 64 bits of the encoding, so that is what a [`Number`] holds.

use vstd::arithmetic::div_mod::*;
use vstd::arithmetic::mul::*;
use vstd::arithmetic::power2::*;
use vstd::bits::*;
use vstd::prelude::*;

verus! {

/// A double-precision number, as the 64 bits of its IEEE 754 encoding:
/// one sign bit, eleven exponent bits, fifty-two fraction bits.
#[derive(Clone, Copy, Debug, PartialEq, Eq, Structural)]
pub struct Number {
    pub bits: u64,
}

impl Number {
    /// The sign bit is set.
    pub open spec fn negative(self) -> bool {
        self.bits >= 0x8000_0000_0000_0000
    }

    /// The biased exponent field.
    pub open spec fn exponent(self) -> nat {
        ((self.bits / 0x10_0000_0000_0000) % 0x800) as nat
    }

    /// The fraction field.
    pub open spec fn fraction(self) -> nat {
        (self.bits % 0x10_0000_0000_0000) as nat
    }

    /// Not a number: the exponent field is all ones and the fraction is not zero.
    pub open spec fn is_nan(self) -> bool {
        self.exponent() == 0x7ff && self.fraction() != 0
    }

    /// The integer `m` for which the magnitude is `m * 2^(scale - 1075)`.
    /// Subnormal numbers have no implicit leading one.
    pub open spec fn significand(self) -> nat {
        if self.exponent() == 0 {
            self.fraction()
        } else {
            0x10_0000_0000_0000 + self.fraction()
        }
    }

    /// The power of two that goes with [`Number::significand`].
    pub open spec fn scale(self) -> nat {
        if self.exponent() == 0 {
            1
        } else {
            self.exponent()
        }
    }

    /// The magnitude rounded towards zero. An infinity is read as the
    /// number one binade above the largest finite one, which is all that a
    /// saturating conversion needs to know of it.
    pub open spec fn whole(self) -> nat {
        (self.significand() * pow2(self.scale()) / pow2(1075)) as nat
    }

    /// The number as a 32-bit signed integer: rounded towards zero, pinned to
    /// the nearest bound where it does not fit, and zero for a NaN.
    pub open spec fn truncated(self) -> int {
        if self.is_nan() {
            0
        } else if self.negative() {
            if self.whole() >= 0x8000_0000 {
                -0x8000_0000
            } else {
                -(self.whole() as int)
            }
        } else {
            if self.whole() >= 0x8000_0000 {
                0x7fff_ffff
            } else {
                self.whole() as int
            }
        }
    }

    /// [`Number::truncated`] as a value of the type it fits in.
    pub open spec fn exit_code(self) -> i32 {
        self.truncated() as i32
    }

    /// Positive zero.
    pub fn zero() -> (number: Number)
        ensures
            number.bits == 0,
    {
        Number { bits: 0 }
    }

    /// The number with the given encoding.
    pub fn from_bits(bits: u64) -> (number: Number)
        ensures
            number.bits == bits,
    {
        Number { bits }
    }

    /// The encoding of the number.
    pub fn to_bits(&self) -> (bits: u64)
        ensures
            bits == self.bits,
    {
        self.bits
    }

    /// Converts to a 32-bit signed integer, rounding towards zero.
    pub fn truncate(&self) -> (code: i32)
        ensures
            code == self.truncated(),
            code == self.exit_code(),
    {
        let bits: u64 = self.bits;
        let exponent: u64 = (bits >> 52) & 0x7ff;
        let fraction: u64 = bits & 0xf_ffff_ffff_ffff;
        let negative: bool = bits >= 0x8000_0000_0000_0000;
        proof {
            assert((bits >> 52) & 0x7ff == (bits / 0x10_0000_0000_0000) % 0x800) by (bit_vector);
            assert(bits & 0xf_ffff_ffff_ffff == bits % 0x10_0000_0000_0000) by (bit_vector);
            assert(exponent == self.exponent());
            assert(fraction == self.fraction());
        }
        if exponent == 0x7ff && fraction != 0 {
            0
        } else if exponent < 1023 {
            proof {
                self.whole_below_one();
            }
            0
        } else if exponent >= 1054 {
            proof {
                self.whole_beyond_bounds();
            }
            if negative {
                i32::MIN
            } else {
                i32::MAX
            }
        } else {
            let shift: u64 = 1075 - exponent;
            let significand: u64 = fraction | 0x10_0000_0000_0000;
            let magnitude: u64 = significand >> shift;
            proof {
                assert(fraction < 0x10_0000_0000_0000 ==> fraction | 0x10_0000_0000_0000 == fraction
                    + 0x10_0000_0000_0000) by (bit_vector);
                assert(significand == self.significand());
                assert(significand < 0x20_0000_0000_0000 && 22 <= shift <= 52 ==> (significand
                    >> shift) < 0x8000_0000) by (bit_vector);
                lemma_u64_shr_is_div(significand, shift);
                self.whole_within_bounds();
                assert(magnitude == self.whole());
            }
            if negative {
                -(magnitude as i32)
            } else {
                magnitude as i32
            }
        }
    }

    /// Every number converts to a value within the bounds of the integer type.
    pub proof fn truncated_fits(self)
        ensures
            -0x8000_0000 <= self.truncated() <= 0x7fff_ffff,
            self.exit_code() == self.truncated(),
    {
    }

    /// Zero converts to zero, whatever its sign.
    pub proof fn zero_truncates_to_zero(self)
        requires
            self.bits == 0 || self.bits == 0x8000_0000_0000_0000,
        ensures
            self.truncated() == 0,
            self.exit_code() == 0,
    {
        let bits: u64 = self.bits;
        assert(bits == 0 || bits == 0x8000_0000_0000_0000 ==> (bits / 0x10_0000_0000_0000) % 0x800
            == 0) by (bit_vector);
        self.whole_below_one();
    }

    /// Below one in magnitude, the integer part is zero.
    pub proof fn whole_below_one(self)
        requires
            self.exponent() < 1023,
        ensures
            self.whole() == 0,
    {
        let m: int = self.significand() as int;
        let s: nat = self.scale();
        lemma2_to64_rest();
        lemma_pow2_pos(s);
        lemma_pow2_pos(1075);
        lemma_pow2_adds(53, s);
        assert(pow2(53) == 0x20_0000_0000_0000);
        assert(m * pow2(s) < pow2(53) * pow2(s)) by (nonlinear_arith)
            requires
                0 <= m < pow2(53),
                pow2(s) > 0,
        ;
        if 53 + s < 1075 {
            lemma_pow2_strictly_increases(53 + s, 1075);
        }
        assert(0 <= m * pow2(s)) by (nonlinear_arith)
            requires
                0 <= m,
                pow2(s) > 0,
        ;
        lemma_basic_div(m * pow2(s), pow2(1075) as int);
    }

    /// From `2^31` on, the integer part is at least `2^31`.
    pub proof fn whole_beyond_bounds(self)
        requires
            self.exponent() >= 1054,
        ensures
            self.whole() >= 0x8000_0000,
    {
        let m: int = self.significand() as int;
        let e: nat = self.scale();
        let d: int = pow2(1075) as int;
        lemma2_to64();
        lemma2_to64_rest();
        lemma_pow2_pos(e);
        lemma_pow2_pos(1075);
        lemma_pow2_adds(52, 1054);
        lemma_pow2_adds(31, 1075);
        assert(pow2(52) == 0x10_0000_0000_0000);
        if 1054 < e {
            lemma_pow2_strictly_increases(1054, e);
        }
        assert(pow2(52) * pow2(1054) <= m * pow2(e)) by (nonlinear_arith)
            requires
                pow2(52) <= m,
                pow2(1054) <= pow2(e),
                0 < pow2(1054),
        ;
        assert(pow2(52) * pow2(1054) == pow2(31) * d);
        lemma_div_is_ordered(pow2(31) * d, m * pow2(e), d);
        lemma_div_by_multiple(pow2(31) as int, d);
        assert(pow2(31) == 0x8000_0000);
    }

    /// In between, the integer part is the significand without its low bits.
    pub proof fn whole_within_bounds(self)
        requires
            1023 <= self.exponent() < 1054,
        ensures
            self.whole() == self.significand() / pow2((1075 - self.exponent()) as nat),
    {
        let m: int = self.significand() as int;
        let e: nat = self.exponent();
        let k: nat = (1075 - e) as nat;
        lemma_pow2_pos(e);
        lemma_pow2_pos(k);
        lemma_pow2_adds(e, k);
        lemma_div_multiples_vanish_quotient(pow2(e) as int, m, pow2(k) as int);
        assert(m * pow2(e) == pow2(e) * m) by (nonlinear_arith);
    }
}

} // verus!
