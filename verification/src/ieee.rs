//! IEEE-754 binary64 numbers, held as their bit patterns.
//!
//! A [`Double`] carries the 64 bits of a double-precision number. The
//! comparisons are defined over [`Double::key`], the pattern read as a signed
//! magnitude, which a solver can evaluate on given patterns.
//! [`lemma_key_orders_values`] shows that the key orders the numbers as their
//! values do, the value being [`Double::scaled`]. Arithmetic that rounds is
//! not offered: it is done on the machine's numbers by whoever holds them.

use vstd::arithmetic::power2::{lemma_pow2_pos, lemma_pow2_strictly_increases, lemma_pow2_unfold, pow2};
use vstd::prelude::*;

verus! {

/// The bit that holds the sign.
pub const SIGN_BIT: u64 = 0x8000_0000_0000_0000;

/// The pattern of positive infinity: every exponent bit set, no fraction bit.
pub const INFINITY_BITS: u64 = 0x7ff0_0000_0000_0000;

/// Two to the power 52: the weight of the lowest exponent bit.
pub const FRACTION_RANGE: u64 = 0x0010_0000_0000_0000;

/// A binary64 number as its bit pattern. `==` compares patterns, so it tells
/// `0.0` from `-0.0` and a NaN equals itself; the numeric comparisons are the
/// methods.
#[derive(Clone, Copy, Debug, PartialEq, Eq, Structural)]
pub struct Double {
    pub bits: u64,
}

impl Double {
    /// The pattern without its sign bit.
    pub open spec fn magnitude_bits(self) -> u64 {
        if self.bits >= SIGN_BIT {
            (self.bits - SIGN_BIT) as u64
        } else {
            self.bits
        }
    }

    /// Whether the sign bit is set (true of `-0.0` too).
    pub open spec fn sign_negative(self) -> bool {
        self.bits >= SIGN_BIT
    }

    /// The biased exponent field, 0 to 2047.
    pub open spec fn exponent(self) -> nat {
        (self.magnitude_bits() / FRACTION_RANGE) as nat
    }

    /// The 52-bit fraction field.
    pub open spec fn fraction(self) -> nat {
        (self.magnitude_bits() % FRACTION_RANGE) as nat
    }

    /// Whether the pattern is a NaN: exponent field full, fraction not zero.
    pub open spec fn nan(self) -> bool {
        self.magnitude_bits() > INFINITY_BITS
    }

    /// The absolute value in units of 2^-1074. A subnormal is its fraction; a
    /// normal number has the implicit leading bit and is shifted by its
    /// exponent. Infinity takes the place above the largest finite number.
    /// For a NaN the number has no meaning.
    pub open spec fn magnitude(self) -> nat {
        if self.exponent() == 0 {
            self.fraction()
        } else {
            ((FRACTION_RANGE + self.fraction()) * pow2((self.exponent() - 1) as nat)) as nat
        }
    }

    /// The value in units of 2^-1074, with its sign. Both zeros give 0.
    pub open spec fn scaled(self) -> int {
        if self.sign_negative() {
            -(self.magnitude() as int)
        } else {
            self.magnitude() as int
        }
    }

    /// The pattern read as a signed magnitude: the pattern without its sign
    /// bit, negated when the sign bit is set. Both zeros give 0. Among
    /// numbers that are not NaN, a larger key is a larger value.
    pub open spec fn key(self) -> int {
        if self.sign_negative() {
            -(self.magnitude_bits() as int)
        } else {
            self.magnitude_bits() as int
        }
    }

    /// `self < other` as IEEE-754 has it: false when either is a NaN.
    pub open spec fn spec_lt(self, other: Double) -> bool {
        !self.nan() && !other.nan() && self.key() < other.key()
    }

    /// `self <= other` as IEEE-754 has it: false when either is a NaN.
    pub open spec fn spec_le(self, other: Double) -> bool {
        !self.nan() && !other.nan() && self.key() <= other.key()
    }

    /// `self > other`: `other < self`.
    pub open spec fn spec_gt(self, other: Double) -> bool {
        other.spec_lt(self)
    }

    /// The same number without its sign: the pattern with the sign bit
    /// cleared.
    pub open spec fn spec_abs(self) -> Double {
        Double { bits: self.magnitude_bits() }
    }

    /// The larger of the two, a NaN giving way to the other operand. Of two
    /// numbers that compare equal, `self`.
    pub open spec fn spec_max(self, other: Double) -> Double {
        if self.nan() {
            other
        } else if other.nan() {
            self
        } else if self.spec_lt(other) {
            other
        } else {
            self
        }
    }

    /// The smaller of the two, a NaN giving way to the other operand. Of two
    /// numbers that compare equal, `self`.
    pub open spec fn spec_min(self, other: Double) -> Double {
        if self.nan() {
            other
        } else if other.nan() {
            self
        } else if other.spec_lt(self) {
            other
        } else {
            self
        }
    }

    /// The number with the given pattern.
    pub fn from_bits(bits: u64) -> (d: Double)
        ensures
            d.bits == bits,
    {
        Double { bits }
    }

    /// The number's pattern.
    pub fn to_bits(self) -> (bits: u64)
        ensures
            bits == self.bits,
    {
        self.bits
    }

    fn abs_bits(self) -> (m: u64)
        ensures
            m == self.magnitude_bits(),
    {
        if self.bits >= SIGN_BIT {
            self.bits - SIGN_BIT
        } else {
            self.bits
        }
    }

    /// Whether this is a NaN.
    pub fn is_nan(self) -> (r: bool)
        ensures
            r == self.nan(),
    {
        self.abs_bits() > INFINITY_BITS
    }

    /// Numeric `<`.
    #[verifier::when_used_as_spec(spec_lt)]
    pub fn lt(self, other: Double) -> (r: bool)
        ensures
            r == self.spec_lt(other),
    {
        if self.is_nan() || other.is_nan() {
            return false;
        }
        let a: u64 = self.abs_bits();
        let b: u64 = other.abs_bits();
        if self.bits >= SIGN_BIT {
            if other.bits >= SIGN_BIT {
                b < a
            } else {
                a != 0 || b != 0
            }
        } else {
            if other.bits >= SIGN_BIT {
                false
            } else {
                a < b
            }
        }
    }

    /// Numeric `<=`.
    #[verifier::when_used_as_spec(spec_le)]
    pub fn le(self, other: Double) -> (r: bool)
        ensures
            r == self.spec_le(other),
    {
        if self.is_nan() || other.is_nan() {
            false
        } else {
            !other.lt(self)
        }
    }

    /// Numeric `>`.
    #[verifier::when_used_as_spec(spec_gt)]
    pub fn gt(self, other: Double) -> (r: bool)
        ensures
            r == self.spec_gt(other),
    {
        other.lt(self)
    }

    /// The absolute value.
    #[verifier::when_used_as_spec(spec_abs)]
    pub fn abs(self) -> (r: Double)
        ensures
            r == self.spec_abs(),
    {
        Double { bits: self.abs_bits() }
    }

    /// The larger of two numbers, ignoring a NaN beside a number.
    #[verifier::when_used_as_spec(spec_max)]
    pub fn max(self, other: Double) -> (r: Double)
        ensures
            r == self.spec_max(other),
            r == self || r == other,
            !self.nan() && !other.nan() ==> self.le(r) && other.le(r),
    {
        if self.is_nan() {
            other
        } else if other.is_nan() {
            self
        } else if self.lt(other) {
            other
        } else {
            self
        }
    }

    /// The smaller of two numbers, ignoring a NaN beside a number.
    #[verifier::when_used_as_spec(spec_min)]
    pub fn min(self, other: Double) -> (r: Double)
        ensures
            r == self.spec_min(other),
            r == self || r == other,
            !self.nan() && !other.nan() ==> r.le(self) && r.le(other),
    {
        if self.is_nan() {
            other
        } else if other.is_nan() {
            self
        } else if other.lt(self) {
            other
        } else {
            self
        }
    }
}

/// Among patterns without their sign, the larger pattern is the larger
/// magnitude: the same exponent leaves the fractions to decide, and a larger
/// exponent outweighs any fraction.
pub proof fn lemma_magnitude_order(a: Double, b: Double)
    requires
        a.magnitude_bits() < b.magnitude_bits(),
    ensures
        a.magnitude() < b.magnitude(),
{
    let ea = a.exponent();
    let eb = b.exponent();
    let fa = a.fraction();
    let fb = b.fraction();
    let range = FRACTION_RANGE as nat;
    assert(ea <= eb);
    assert(fa < range && fb < range);
    if ea == eb {
        assert(fa < fb);
        if ea != 0 {
            let p = pow2((ea - 1) as nat);
            lemma_pow2_pos((ea - 1) as nat);
            assert((range + fa) * p < (range + fb) * p) by (nonlinear_arith)
                requires
                    fa < fb,
                    p > 0,
            ;
        }
    } else {
        let q = pow2((eb - 1) as nat);
        lemma_pow2_pos((eb - 1) as nat);
        assert(range * q <= (range + fb) * q) by (nonlinear_arith)
            requires
                q > 0,
        ;
        if ea == 0 {
            assert(range * 1 <= range * q) by (nonlinear_arith)
                requires
                    q >= 1,
            ;
        } else {
            let p = pow2((ea - 1) as nat);
            lemma_pow2_pos((ea - 1) as nat);
            lemma_pow2_unfold(ea);
            if ea < eb - 1 {
                lemma_pow2_strictly_increases(ea, (eb - 1) as nat);
            }
            assert(2 * p <= q);
            assert((range + fa) * p < range * (2 * p)) by (nonlinear_arith)
                requires
                    fa < range,
                    p > 0,
            ;
            assert(range * (2 * p) <= range * q) by (nonlinear_arith)
                requires
                    2 * p <= q,
            ;
        }
    }
}

/// Only the two zeros have magnitude 0.
pub proof fn lemma_magnitude_zero(a: Double)
    ensures
        a.magnitude() == 0 <==> a.magnitude_bits() == 0,
{
    if a.exponent() != 0 {
        let p = pow2((a.exponent() - 1) as nat);
        lemma_pow2_pos((a.exponent() - 1) as nat);
        assert((FRACTION_RANGE as nat + a.fraction()) * p > 0) by (nonlinear_arith)
            requires
                p > 0,
        ;
    }
}

/// The key orders the patterns as the values do: of two patterns, the one
/// with the smaller key stands for the smaller value, and equal keys stand
/// for equal values. So `lt` and `le` compare values wherever neither operand
/// is a NaN.
pub proof fn lemma_key_orders_values(a: Double, b: Double)
    ensures
        a.key() < b.key() <==> a.scaled() < b.scaled(),
        a.key() == b.key() <==> a.scaled() == b.scaled(),
{
    lemma_magnitude_zero(a);
    lemma_magnitude_zero(b);
    if a.magnitude_bits() < b.magnitude_bits() {
        lemma_magnitude_order(a, b);
    }
    if b.magnitude_bits() < a.magnitude_bits() {
        lemma_magnitude_order(b, a);
    }
}

} // verus!
