//! Real quantities as IEEE 754 binary64 bit patterns.

use vstd::prelude::*;
use vstd::arithmetic::power2::{lemma2_to64, lemma2_to64_rest, lemma_pow2_pos, pow2};

verus! {

/// The eleven exponent bits of a binary64 pattern.
pub const EXPONENT_MASK: u64 = 0x7ff0_0000_0000_0000;

/// The fifty-two fraction bits of a binary64 pattern.
pub const FRACTION_MASK: u64 = 0x000f_ffff_ffff_ffff;

/// Two to the power fifty-two: the weight of the lowest exponent bit.
pub open spec fn fraction_span() -> int {
    0x10_0000_0000_0000
}

/// A quantity held as its binary64 bit pattern: one sign bit, eleven bits of
/// biased exponent, fifty-two bits of fraction.
#[derive(Clone, Copy, Debug, PartialEq, Eq, Structural)]
pub struct Scalar {
    pub bits: u64,
}

impl Scalar {
    /// The biased exponent, between 0 and 2047.
    pub open spec fn biased_exponent(self) -> int {
        (self.bits as int / fraction_span()) % 0x800
    }

    /// The fraction field, below two to the power fifty-two.
    pub open spec fn fraction(self) -> int {
        self.bits as int % fraction_span()
    }

    /// Whether the sign bit is set.
    pub open spec fn sign_bit(self) -> bool {
        self.bits as int >= 0x8000_0000_0000_0000
    }

    /// The pattern is not a number: every exponent bit is set and the
    /// fraction is not zero.
    pub open spec fn spec_is_nan(self) -> bool {
        self.biased_exponent() == 0x7ff && self.fraction() != 0
    }

    /// The pattern is a number that is neither infinite nor undefined.
    pub open spec fn spec_is_finite(self) -> bool {
        self.biased_exponent() < 0x7ff
    }

    /// The pattern stands for the whole number `n`: it is a zero and `n` is
    /// zero, or it is a normal number whose sign is that of `n` and whose
    /// significand, scaled by its exponent, is the magnitude of `n`.
    pub open spec fn stands_for(self, n: int) -> bool {
        let exponent = self.biased_exponent();
        let significand = fraction_span() + self.fraction();
        let magnitude = if n < 0 {
            -n
        } else {
            n
        };
        if exponent == 0 {
            self.fraction() == 0 && n == 0
        } else if exponent < 1075 {
            n != 0 && self.sign_bit() == (n < 0) && magnitude * pow2((1075 - exponent) as nat)
                == significand
        } else {
            exponent < 0x7ff && n != 0 && self.sign_bit() == (n < 0) && magnitude == significand
                * pow2((exponent - 1075) as nat)
        }
    }

    /// Positive zero, the pattern with no bit set.
    pub open spec fn spec_zero() -> Scalar {
        Scalar { bits: 0 }
    }

    /// What is stored for an entered value: positive zero in place of a
    /// pattern that is not a number, any other pattern as it is.
    pub open spec fn spec_sanitized(self) -> Scalar {
        if self.spec_is_nan() {
            Scalar::spec_zero()
        } else {
            self
        }
    }

    /// Wraps a bit pattern.
    pub fn from_bits(bits: u64) -> (s: Scalar)
        ensures
            s.bits == bits,
    {
        Scalar { bits }
    }

    /// The bit pattern.
    pub fn to_bits(self) -> (bits: u64)
        ensures
            bits == self.bits,
    {
        self.bits
    }

    /// Positive zero.
    #[verifier::when_used_as_spec(spec_zero)]
    pub fn zero() -> (s: Scalar)
        ensures
            s == Scalar::spec_zero(),
    {
        Scalar { bits: 0 }
    }

    /// Tells whether the pattern is not a number.
    #[verifier::when_used_as_spec(spec_is_nan)]
    pub fn is_nan(self) -> (r: bool)
        ensures
            r == self.spec_is_nan(),
    {
        let bits: u64 = self.bits;
        proof {
            lemma_fields_by_mask(bits);
        }
        (bits & EXPONENT_MASK) == EXPONENT_MASK && (bits & FRACTION_MASK) != 0
    }

    /// Tells whether the pattern is a finite number.
    #[verifier::when_used_as_spec(spec_is_finite)]
    pub fn is_finite(self) -> (r: bool)
        ensures
            r == self.spec_is_finite(),
    {
        let bits: u64 = self.bits;
        proof {
            lemma_fields_by_mask(bits);
        }
        (bits & EXPONENT_MASK) != EXPONENT_MASK
    }

    /// The value to store for this entry.
    #[verifier::when_used_as_spec(spec_sanitized)]
    pub fn sanitized(self) -> (s: Scalar)
        ensures
            s == self.spec_sanitized(),
    {
        if self.is_nan() {
            Scalar::zero()
        } else {
            self
        }
    }
}

/// Masking a pattern reads the same fields as dividing it.
pub proof fn lemma_fields_by_mask(bits: u64)
    ensures
        ((bits & EXPONENT_MASK) == EXPONENT_MASK) <==> (Scalar { bits }).biased_exponent() == 0x7ff,
        ((bits & FRACTION_MASK) != 0) <==> (Scalar { bits }).fraction() != 0,
        0 <= (Scalar { bits }).biased_exponent() < 0x800,
        0 <= (Scalar { bits }).fraction() < fraction_span(),
{
    assert(((bits & 0x7ff0_0000_0000_0000) == 0x7ff0_0000_0000_0000) <==> ((bits
        / 0x10_0000_0000_0000) % 0x800 == 0x7ff)) by (bit_vector);
    assert(((bits & 0x000f_ffff_ffff_ffff) != 0) <==> (bits % 0x10_0000_0000_0000 != 0))
        by (bit_vector);
}

/// Sanitizing never yields a pattern that is not a number, and changes
/// nothing that is a number.
pub proof fn lemma_sanitized_is_a_number(s: Scalar)
    ensures
        !s.spec_sanitized().spec_is_nan(),
        !s.spec_is_nan() ==> s.spec_sanitized() == s,
        s.spec_sanitized().spec_sanitized() == s.spec_sanitized(),
{
}

/// A pattern stands for at most one whole number, and one that does is
/// finite.
pub proof fn lemma_stands_for_one(s: Scalar, a: int, b: int)
    requires
        s.stands_for(a),
        s.stands_for(b),
    ensures
        a == b,
        s.spec_is_finite(),
        !s.spec_is_nan(),
{
    let exponent = s.biased_exponent();
    if 0 < exponent < 1075 {
        let p = pow2((1075 - exponent) as nat);
        lemma_pow2_pos((1075 - exponent) as nat);
        let ma = if a < 0 {
            -a
        } else {
            a
        };
        let mb = if b < 0 {
            -b
        } else {
            b
        };
        assert(ma == mb) by (nonlinear_arith)
            requires
                ma * p == mb * p,
                p > 0,
        ;
    }
}

/// The patterns of a few small whole numbers.
pub proof fn lemma_small_whole_numbers()
    ensures
        Scalar::spec_zero().stands_for(0),
        (Scalar { bits: 0x3ff0_0000_0000_0000 }).stands_for(1),
        (Scalar { bits: 0xc000_0000_0000_0000 }).stands_for(-2),
        (Scalar { bits: 0x4010_0000_0000_0000 }).stands_for(4),
        (Scalar { bits: 0x4018_0000_0000_0000 }).stands_for(6),
        (Scalar { bits: 0x4039_0000_0000_0000 }).stands_for(25),
        (Scalar { bits: 0x404e_0000_0000_0000 }).stands_for(60),
        (Scalar { bits: 0x4073_6000_0000_0000 }).stands_for(310),
{
    lemma2_to64();
    lemma2_to64_rest();
}

} // verus!
