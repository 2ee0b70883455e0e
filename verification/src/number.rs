//! Real numbers as the engine stores them.
//!
//! A number is kept as the 64 bits of its IEEE 754 binary64 encoding: one sign
//! bit, eleven exponent bits, fifty-two fraction bits. The library never
//! rounds: it classifies encodings (positive, within the unit interval),
//! takes the whole part of one, and moves them around, so that every
//! statement about a number is a statement about integers.

use vstd::arithmetic::div_mod::{
    lemma_basic_div, lemma_div_multiples_vanish, lemma_div_multiples_vanish_quotient,
};
use vstd::arithmetic::power2::{
    lemma2_to64, lemma2_to64_rest, lemma_pow2_adds, lemma_pow2_pos, lemma_pow2_strictly_increases,
    pow2,
};
use vstd::bits::{lemma_u64_shl_is_mul, lemma_u64_shr_is_div};
use vstd::prelude::*;

verus! {

/// Two to the power 63: the weight of the sign bit.
pub const SIGN_WEIGHT: u64 = 0x8000_0000_0000_0000;

/// Two to the power 52: the weight of the lowest exponent bit.
pub const EXPONENT_WEIGHT: u64 = 0x0010_0000_0000_0000;

/// The encoding of positive infinity, the largest encoding that is a number.
pub const INFINITY_BITS: u64 = 0x7FF0_0000_0000_0000;

/// The encoding of the number one.
pub const ONE_BITS: u64 = 0x3FF0_0000_0000_0000;

/// The exponent field of infinities and of values that are not numbers.
pub const EXPONENT_SPECIAL: u64 = 2047;

/// The exponent field of the numbers in `[1, 2)`.
pub const EXPONENT_BIAS: u64 = 1023;

/// A binary64 value, held by its encoding.
#[derive(Clone, Copy, Debug)]
pub struct Real {
    pub bits: u64,
}

impl Real {
    /// The sign bit: set for negative numbers and for negative zero.
    pub open spec fn sign(self) -> bool {
        self.bits >= SIGN_WEIGHT
    }

    /// The eleven exponent bits, as a number in `0..2048`.
    pub open spec fn exponent(self) -> int {
        (self.bits as int / EXPONENT_WEIGHT as int) % 2048
    }

    /// The fifty-two fraction bits, as a number.
    pub open spec fn fraction(self) -> int {
        self.bits as int % EXPONENT_WEIGHT as int
    }

    /// Not a number: the exponent is all ones and the fraction is not zero.
    pub open spec fn is_nan(self) -> bool {
        self.exponent() == EXPONENT_SPECIAL && self.fraction() != 0
    }

    /// Zero of either sign.
    pub open spec fn is_zero(self) -> bool {
        self.exponent() == 0 && self.fraction() == 0
    }

    /// Strictly greater than zero; positive infinity counts.
    pub open spec fn positive(self) -> bool {
        !self.sign() && !self.is_nan() && !self.is_zero()
    }

    /// Strictly less than zero; negative infinity counts.
    pub open spec fn negative(self) -> bool {
        self.sign() && !self.is_nan() && !self.is_zero()
    }

    /// A number that is at most one: every negative number, both zeros, and
    /// the positive numbers whose exponent lies below the bias, and one itself.
    pub open spec fn at_most_one(self) -> bool {
        &&& !self.is_nan()
        &&& (self.sign() || self.exponent() < EXPONENT_BIAS || (self.exponent() == EXPONENT_BIAS
            && self.fraction() == 0))
    }

    /// Within the closed interval from zero to one.
    pub open spec fn unit(self) -> bool {
        !self.is_nan() && !self.negative() && self.at_most_one()
    }

    /// Neither infinite nor not a number.
    pub open spec fn finite(self) -> bool {
        self.exponent() < EXPONENT_SPECIAL
    }

    /// The significand of a finite number: the fraction, with the leading bit
    /// that normal numbers imply.
    pub open spec fn significand(self) -> nat {
        if self.exponent() == 0 {
            self.fraction() as nat
        } else {
            (EXPONENT_WEIGHT + self.fraction()) as nat
        }
    }

    /// The power of two by which the significand of a finite number counts,
    /// above the smallest one.
    pub open spec fn scale(self) -> nat {
        if self.exponent() == 0 {
            0
        } else {
            (self.exponent() - 1) as nat
        }
    }

    /// The absolute value of a finite number, counted in units of two to the
    /// power -1074, the smallest positive number. Every finite number is a
    /// whole multiple of that unit.
    pub open spec fn magnitude(self) -> nat {
        self.significand() * pow2(self.scale())
    }

    /// The whole part of the number as a count: a number below one, a
    /// negative number and a value that is not a number count nothing, and a
    /// number beyond the largest count counts as that.
    pub open spec fn count(self) -> usize {
        if self.sign() || self.is_nan() {
            0
        } else if !self.finite() || self.magnitude() / magnitude_of_one() > usize::MAX {
            usize::MAX
        } else {
            (self.magnitude() / magnitude_of_one()) as usize
        }
    }

    /// The value with the given encoding.
    pub fn from_bits(bits: u64) -> (r: Real)
        ensures
            r.bits == bits,
    {
        Real { bits }
    }

    /// The encoding of the value.
    pub fn to_bits(self) -> (bits: u64)
        ensures
            bits == self.bits,
    {
        self.bits
    }

    /// Positive zero.
    pub fn zero() -> (r: Real)
        ensures
            r.bits == 0,
            r.is_zero(),
            !r.sign(),
    {
        Real { bits: 0 }
    }

    /// Whether the value is strictly greater than zero.
    pub fn is_positive(self) -> (r: bool)
        ensures
            r == self.positive(),
    {
        0 < self.bits && self.bits <= INFINITY_BITS
    }

    /// Whether the value lies within the closed interval from zero to one.
    pub fn is_unit(self) -> (r: bool)
        ensures
            r == self.unit(),
    {
        self.bits <= ONE_BITS || self.bits == SIGN_WEIGHT
    }

    /// The whole part of the number as a count.
    pub fn to_count(self) -> (r: usize)
        ensures
            r == self.count(),
    {
        if self.bits >= SIGN_WEIGHT {
            return 0;
        }
        let exponent: u64 = self.bits / EXPONENT_WEIGHT;
        let fraction: u64 = self.bits % EXPONENT_WEIGHT;
        if exponent == EXPONENT_SPECIAL {
            return if fraction == 0 {
                usize::MAX
            } else {
                0
            };
        }
        proof {
            whole_part(self);
        }
        if exponent < EXPONENT_BIAS {
            return 0;
        }
        let significand: u64 = EXPONENT_WEIGHT + fraction;
        let whole: u64 = if exponent <= 1075 {
            let shift: u64 = 1075 - exponent;
            proof {
                lemma_u64_shr_is_div(significand, shift);
            }
            significand >> shift
        } else if exponent <= 1086 {
            let shift: u64 = exponent - 1075;
            proof {
                lemma2_to64();
                lemma_pow2_pos(shift as nat);
                if shift < 11 {
                    lemma_pow2_strictly_increases(shift as nat, 11);
                }
                let (m, p) = (significand as int, pow2(shift as nat) as int);
                assert(m * p <= u64::MAX) by (nonlinear_arith)
                    requires
                        0 <= m < 0x20_0000_0000_0000,
                        0 < p <= 0x800,
                ;
                lemma_u64_shl_is_mul(significand, shift);
            }
            significand << shift
        } else {
            proof {
                lemma2_to64();
                if exponent > 1087 {
                    lemma_pow2_strictly_increases(12, (exponent - 1075) as nat);
                }
                let (m, p) = (significand as int, pow2((exponent - 1075) as nat) as int);
                assert(m * p >= 0x1_0000_0000_0000_0000) by (nonlinear_arith)
                    requires
                        m >= 0x10_0000_0000_0000,
                        p >= 0x1000,
                ;
            }
            return usize::MAX;
        };
        if whole > usize::MAX as u64 {
            usize::MAX
        } else {
            whole as usize
        }
    }
}

/// The number one.
pub open spec fn one() -> Real {
    Real { bits: ONE_BITS }
}

/// The magnitude of the number one: two to the power 1074 units.
pub open spec fn magnitude_of_one() -> nat {
    pow2(1074)
}

/// Among the finite numbers without sign bit, a larger encoding is a larger
/// number.
proof fn larger_encoding_is_larger_number(a: Real, b: Real)
    requires
        !b.sign(),
        b.finite(),
        a.bits < b.bits,
    ensures
        a.magnitude() < b.magnitude(),
{
    lemma2_to64();
    lemma2_to64_rest();
    let weight = EXPONENT_WEIGHT as int;
    assert(weight == pow2(52));
    lemma_pow2_pos(a.scale());
    lemma_pow2_pos(b.scale());
    let (sa, sb) = (a.significand() as int, b.significand() as int);
    let (pa, pb) = (pow2(a.scale()) as int, pow2(b.scale()) as int);
    if a.exponent() == b.exponent() {
        assert(sa * pa < sb * pb) by (nonlinear_arith)
            requires
                sa < sb,
                pa == pb,
                pa > 0,
        ;
    } else {
        assert(a.exponent() < b.exponent());
        if a.exponent() == 0 {
            assert(sa * pa < sb * pb) by (nonlinear_arith)
                requires
                    pa == 1,
                    0 <= sa < weight,
                    sb >= weight,
                    pb >= 1,
            ;
        } else {
            lemma_pow2_adds(1, a.scale());
            if a.scale() + 1 < b.scale() {
                lemma_pow2_strictly_increases((a.scale() + 1) as nat, b.scale());
            }
            assert(2 * pa <= pb);
            assert(sa * pa < sb * pb) by (nonlinear_arith)
                requires
                    0 <= sa < 2 * weight,
                    sb >= weight,
                    2 * pa <= pb,
                    pa > 0,
            ;
        }
    }
}

/// The encoding orders the finite numbers without sign bit as their values
/// do.
pub proof fn encoding_orders_as_value(a: Real, b: Real)
    requires
        !a.sign(),
        !b.sign(),
        a.finite(),
        b.finite(),
    ensures
        a.bits <= b.bits <==> a.magnitude() <= b.magnitude(),
        a.bits == b.bits <==> a.magnitude() == b.magnitude(),
{
    if a.bits < b.bits {
        larger_encoding_is_larger_number(a, b);
    } else if b.bits < a.bits {
        larger_encoding_is_larger_number(b, a);
    }
}

/// The whole part of a finite number without sign bit: nothing below one,
/// and from one on the significand, shifted down while the exponent is
/// small and up once it is large.
proof fn whole_part(r: Real)
    requires
        !r.sign(),
        r.finite(),
    ensures
        r.exponent() < EXPONENT_BIAS ==> r.magnitude() / magnitude_of_one() == 0,
        EXPONENT_BIAS <= r.exponent() <= 1075 ==> r.magnitude() / magnitude_of_one()
            == r.significand() / pow2((1075 - r.exponent()) as nat),
        1075 <= r.exponent() ==> r.magnitude() / magnitude_of_one() == r.significand() * pow2(
            (r.exponent() - 1075) as nat,
        ),
{
    let one = one();
    let unit = magnitude_of_one() as int;
    let m = r.significand() as int;
    lemma_pow2_pos(1074);
    if r.exponent() < EXPONENT_BIAS {
        unit_is_between_zero_and_one(r);
        encoding_orders_as_value(r, one);
        assert(r.bits < one.bits);
        lemma_basic_div(r.magnitude() as int, unit);
    } else if r.exponent() <= 1075 {
        let up = r.scale();
        let down = (1075 - r.exponent()) as nat;
        let (a, d) = (pow2(up) as int, pow2(down) as int);
        lemma_pow2_pos(up);
        lemma_pow2_pos(down);
        lemma_pow2_adds(up, down);
        assert(a * d == unit);
        lemma_div_multiples_vanish_quotient(a, m, d);
        assert(m * a == a * m) by (nonlinear_arith);
        if r.exponent() == 1075 {
            lemma2_to64();
            assert(d == 1);
            assert(m / d == m && m * d == m) by (nonlinear_arith)
                requires
                    d == 1,
            ;
        }
    } else {
        let up = (r.exponent() - 1075) as nat;
        let p = pow2(up) as int;
        lemma_pow2_adds(1074, up);
        assert(r.scale() == 1074 + up);
        assert(pow2(r.scale()) == unit * p);
        assert(r.magnitude() == m * (unit * p));
        assert(m * (unit * p) == unit * (m * p)) by (nonlinear_arith);
        lemma_div_multiples_vanish(m * p, unit);
        assert((unit * (m * p)) / unit == m * p);
        assert(r.magnitude() / magnitude_of_one() == m * p);
    }
}

/// A number is positive exactly if it carries no sign bit and is either
/// positive infinity or a finite number of magnitude above zero.
pub proof fn positive_is_above_zero(r: Real)
    ensures
        r.positive() <==> !r.sign() && !r.is_nan() && (!r.finite() || r.magnitude() > 0),
{
    lemma_pow2_pos(r.scale());
    let (s, p) = (r.significand() as int, pow2(r.scale()) as int);
    assert(s * p > 0 <==> s > 0) by (nonlinear_arith)
        requires
            s >= 0,
            p > 0,
    ;
}

/// A number lies within the unit interval exactly if it is finite and either
/// zero, of any sign, or without sign bit and of a magnitude that is at most
/// that of one.
pub proof fn unit_is_between_zero_and_one(r: Real)
    ensures
        one().magnitude() == magnitude_of_one(),
        r.unit() <==> r.finite() && (r.magnitude() == 0 || (!r.sign() && r.magnitude()
            <= magnitude_of_one())),
{
    let one = one();
    lemma2_to64();
    lemma2_to64_rest();
    assert(one.exponent() == 1023 && one.fraction() == 0);
    assert(one.significand() == pow2(52));
    lemma_pow2_adds(52, 1022);
    lemma_pow2_pos(r.scale());
    let (s, p) = (r.significand() as int, pow2(r.scale()) as int);
    assert(s * p == 0 <==> s == 0) by (nonlinear_arith)
        requires
            s >= 0,
            p > 0,
    ;
    if r.finite() && !r.sign() {
        encoding_orders_as_value(r, one);
    }
}

/// A vector of the plane.
#[derive(Clone, Copy, Debug)]
pub struct Vector2 {
    pub x: Real,
    pub y: Real,
}

impl Vector2 {
    /// The vector with the given coordinates.
    pub fn new(x: Real, y: Real) -> (v: Vector2)
        ensures
            v.x == x,
            v.y == y,
    {
        Vector2 { x, y }
    }

    /// The zero vector: both coordinates are positive zero.
    pub open spec fn zero() -> Vector2 {
        Vector2 { x: Real { bits: 0 }, y: Real { bits: 0 } }
    }

    /// The zero vector.
    pub fn zeros() -> (v: Vector2)
        ensures
            v == Vector2::zero(),
    {
        Vector2 { x: Real::zero(), y: Real::zero() }
    }
}

} // verus!
