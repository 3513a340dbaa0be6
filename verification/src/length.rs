//! Exact lengths.
//!
//! An intrinsic dimension of a vector document is a binary64 quantity. To keep
//! every later step exact, a length is held as an integer count of the smallest
//! binary64 step, `2^-1074`: every finite binary64 value is a whole number of
//! such steps.

use vstd::arithmetic::power2::*;
use vstd::prelude::*;

verus! {

/// `2^52`: the weight of the hidden bit of a normal binary64 significand.
pub const HIDDEN_BIT: u64 = 0x10_0000_0000_0000;

/// `2^63`: the sign bit of a binary64 pattern.
pub const SIGN_BIT: u64 = 0x8000_0000_0000_0000;

/// The exponent field whose patterns are infinities and NaNs.
pub const EXPONENT_SPECIAL: u64 = 2047;

/// The eleven exponent bits of a binary64 pattern.
pub open spec fn exponent_field(bits: u64) -> nat {
    ((bits as nat / HIDDEN_BIT as nat) % 2048) as nat
}

/// The fifty-two fraction bits of a binary64 pattern.
pub open spec fn fraction_field(bits: u64) -> nat {
    bits as nat % HIDDEN_BIT as nat
}

/// Whether a binary64 pattern stands for a finite number greater than zero.
pub open spec fn is_positive_finite(bits: u64) -> bool {
    &&& bits < SIGN_BIT
    &&& exponent_field(bits) != EXPONENT_SPECIAL
    &&& bits != 0
}

/// The significand of a binary64 pattern as an integer: the fraction bits,
/// and the hidden bit on top of them unless the pattern is subnormal.
pub open spec fn significand_of_bits(bits: u64) -> nat {
    if exponent_field(bits) == 0 {
        fraction_field(bits)
    } else {
        HIDDEN_BIT as nat + fraction_field(bits)
    }
}

/// How many binary places the significand of a binary64 pattern stands above
/// the smallest step.
pub open spec fn shift_of_bits(bits: u64) -> nat {
    if exponent_field(bits) == 0 {
        0
    } else {
        (exponent_field(bits) - 1) as nat
    }
}

/// The value of a positive finite binary64 pattern, counted in steps of
/// `2^-1074`.
pub open spec fn steps_of_bits(bits: u64) -> nat {
    significand_of_bits(bits) * pow2(shift_of_bits(bits))
}

/// A finite length greater than zero, exactly `significand * 2^shift` steps of
/// `2^-1074`.
#[derive(Clone, Copy, Debug)]
pub struct Length {
    significand: u64,
    shift: u16,
}

impl Length {
    /// The significand, below `2^53`.
    pub closed spec fn significand(&self) -> nat {
        self.significand as nat
    }

    /// The binary places by which the significand stands above the smallest
    /// step.
    pub closed spec fn shift(&self) -> nat {
        self.shift as nat
    }

    /// Every length is the canonical binary64 decomposition of a positive
    /// finite number: only a subnormal one has a significand below `2^52`.
    #[verifier::type_invariant]
    pub open spec fn wf(&self) -> bool {
        &&& 0 < self.significand() < 2 * HIDDEN_BIT
        &&& self.shift() <= 2045
        &&& self.shift() > 0 ==> self.significand() >= HIDDEN_BIT
    }

    /// The length in steps of `2^-1074`.
    pub open spec fn steps(&self) -> nat {
        self.significand() * pow2(self.shift())
    }

    /// Reads a length from the bit pattern of a binary64 number. Zero,
    /// negative numbers, infinities and NaNs are no lengths.
    pub fn from_bits(bits: u64) -> (r: Option<Length>)
        ensures
            r is Some <==> is_positive_finite(bits),
            r matches Some(l) ==> {
                &&& l.wf()
                &&& l.significand() == significand_of_bits(bits)
                &&& l.shift() == shift_of_bits(bits)
                &&& l.steps() == steps_of_bits(bits)
            },
    {
        if bits >= SIGN_BIT || bits == 0 {
            return None;
        }
        let field: u64 = (bits / HIDDEN_BIT) % 2048;
        let fraction: u64 = bits % HIDDEN_BIT;
        if field == EXPONENT_SPECIAL {
            return None;
        }
        if field == 0 {
            Some(Length { significand: fraction, shift: 0 })
        } else {
            Some(Length { significand: HIDDEN_BIT + fraction, shift: (field - 1) as u16 })
        }
    }

    /// The significand as a machine integer.
    pub fn significand_value(&self) -> (m: u64)
        ensures
            m == self.significand(),
            self.wf(),
    {
        proof {
            use_type_invariant(self);
        }
        self.significand
    }

    /// The shift as a machine integer.
    pub fn shift_value(&self) -> (s: u16)
        ensures
            s == self.shift(),
            self.wf(),
    {
        proof {
            use_type_invariant(self);
        }
        self.shift
    }

    /// Whether this length is at most `other`.
    pub fn le(&self, other: &Length) -> (r: bool)
        ensures
            r == (self.steps() <= other.steps()),
    {
        proof {
            use_type_invariant(self);
            use_type_invariant(other);
            lemma_steps_order(*self, *other);
            lemma_steps_order(*other, *self);
        }
        if self.shift == other.shift {
            self.significand <= other.significand
        } else {
            self.shift < other.shift
        }
    }
}

/// Lengths are ordered by their shifts first and by their significands next,
/// as the binary64 patterns they were read from are.
pub proof fn lemma_steps_order(a: Length, b: Length)
    requires
        a.wf(),
        b.wf(),
    ensures
        a.shift() < b.shift() ==> a.steps() < b.steps(),
        a.shift() == b.shift() ==> (a.steps() <= b.steps() <==> a.significand() <= b.significand()),
{
    let (ma, mb) = (a.significand() as int, b.significand() as int);
    let pa = pow2(a.shift()) as int;
    let pb = pow2(b.shift()) as int;
    lemma_pow2_pos(a.shift());
    lemma_pow2_pos(b.shift());
    if a.shift() < b.shift() {
        lemma_pow2_unfold(a.shift() + 1);
        if a.shift() + 1 < b.shift() {
            lemma_pow2_strictly_increases(a.shift() + 1, b.shift());
        }
        assert(2 * pa <= pb);
        assert(ma * pa < mb * pb) by (nonlinear_arith)
            requires
                0 < ma < 2 * HIDDEN_BIT,
                mb >= HIDDEN_BIT,
                pa > 0,
                2 * pa <= pb,
        ;
    } else if a.shift() == b.shift() {
        assert(ma * pa <= mb * pa <==> ma <= mb) by (nonlinear_arith)
            requires
                pa > 0,
        ;
    }
}

} // verus!
