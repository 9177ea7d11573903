//! Coordinates in the double precision format of IEEE 754, held by their bits.

use vstd::arithmetic::div_mod::lemma_div_pos_is_pos;
use vstd::arithmetic::power2::{lemma2_to64, lemma_pow2_pos, lemma_pow2_strictly_increases, pow2};
use vstd::bits::{lemma_u64_shl_is_mul, lemma_u64_shr_is_div};
use vstd::prelude::*;

verus! {

/// A coordinate or an extent: the bits of an IEEE 754 double.
#[derive(Clone, Copy, Debug, PartialEq, Eq, Structural)]
pub struct Coordinate {
    pub bits: u64,
}

/// Two to the power of 52: the weight of the bit that a normal double leaves out.
pub const HIDDEN_BIT: u64 = 0x10_0000_0000_0000;

impl Coordinate {
    /// Whether the sign bit is set.
    pub open spec fn signed(self) -> bool {
        self.bits >= 0x8000_0000_0000_0000
    }

    /// The biased exponent.
    pub open spec fn exponent(self) -> int {
        (self.bits as int / HIDDEN_BIT as int) % 0x800
    }

    /// The stored fraction.
    pub open spec fn fraction(self) -> int {
        self.bits as int % HIDDEN_BIT as int
    }

    /// Whether the bits stand for a number that is neither infinite nor missing.
    pub open spec fn finite(self) -> bool {
        self.exponent() != 0x7ff
    }

    /// Whether the bits stand for no number at all.
    pub open spec fn not_a_number(self) -> bool {
        self.exponent() == 0x7ff && self.fraction() != 0
    }

    /// Whether the bits stand for zero, of either sign.
    pub open spec fn zero(self) -> bool {
        self.exponent() == 0 && self.fraction() == 0
    }

    /// Whether the number is below zero.
    pub open spec fn negative(self) -> bool {
        self.signed() && !self.zero() && !self.not_a_number()
    }

    /// Whether the number is above zero.
    pub open spec fn positive(self) -> bool {
        !self.signed() && !self.zero() && !self.not_a_number()
    }

    /// The integral part of the magnitude of a finite number. The magnitude of a normal number
    /// is its significand, hidden bit and fraction, times two to the exponent less 1075;
    /// with an exponent below 1023 it is less than one.
    pub open spec fn integral(self) -> int {
        let significand = HIDDEN_BIT + self.fraction();
        if self.exponent() >= 1075 {
            significand * pow2((self.exponent() - 1075) as nat)
        } else if self.exponent() >= 1023 {
            significand / (pow2((1075 - self.exponent()) as nat) as int)
        } else {
            0
        }
    }

    /// The number cut down to an integer from 0 to `limit`: nothing and what is below zero
    /// give 0, what is above `limit` gives `limit`.
    pub open spec fn clamped(self, limit: int) -> int {
        if self.not_a_number() || self.signed() {
            0
        } else if !self.finite() || self.integral() > limit {
            limit
        } else {
            self.integral()
        }
    }

    /// The bits below the sign bit, which order numbers by magnitude, with the sign put back:
    /// numbers are in the order of these keys, and the two zeros share one.
    pub open spec fn key(self) -> int {
        let magnitude = self.bits as int % 0x8000_0000_0000_0000;
        if self.signed() {
            -magnitude
        } else {
            magnitude
        }
    }

    /// Whether this number is below `other`; never so where one of the two is no number.
    pub open spec fn below(self, other: Coordinate) -> bool {
        !self.not_a_number() && !other.not_a_number() && self.key() < other.key()
    }

    /// Whether this number is `other` or above it; never so where one of the two is no number.
    pub open spec fn at_least(self, other: Coordinate) -> bool {
        !self.not_a_number() && !other.not_a_number() && self.key() >= other.key()
    }

    /// A coordinate from the bits of a double.
    pub fn from_bits(bits: u64) -> (r: Coordinate)
        ensures
            r.bits == bits,
    {
        Coordinate { bits }
    }

    /// Whether the coordinate is neither infinite nor missing.
    pub fn is_finite(&self) -> (r: bool)
        ensures
            r == self.finite(),
    {
        (self.bits / HIDDEN_BIT) % 0x800 != 0x7ff
    }

    /// Whether the coordinate is below zero.
    pub fn is_negative(&self) -> (r: bool)
        ensures
            r == self.negative(),
    {
        let exponent: u64 = (self.bits / HIDDEN_BIT) % 0x800;
        let fraction: u64 = self.bits % HIDDEN_BIT;
        self.bits >= 0x8000_0000_0000_0000 && !(exponent == 0 && fraction == 0) && !(exponent
            == 0x7ff && fraction != 0)
    }

    /// Whether the coordinate is above zero.
    pub fn is_positive(&self) -> (r: bool)
        ensures
            r == self.positive(),
    {
        let exponent: u64 = (self.bits / HIDDEN_BIT) % 0x800;
        let fraction: u64 = self.bits % HIDDEN_BIT;
        self.bits < 0x8000_0000_0000_0000 && !(exponent == 0 && fraction == 0) && !(exponent
            == 0x7ff && fraction != 0)
    }

    /// Whether the coordinate stands for no number.
    pub fn is_nan(&self) -> (r: bool)
        ensures
            r == self.not_a_number(),
    {
        (self.bits / HIDDEN_BIT) % 0x800 == 0x7ff && self.bits % HIDDEN_BIT != 0
    }

    /// Whether the coordinate is below `other`.
    pub fn is_below(&self, other: &Coordinate) -> (r: bool)
        ensures
            r == self.below(*other),
    {
        if self.is_nan() || other.is_nan() {
            return false;
        }
        let here: u64 = self.bits % 0x8000_0000_0000_0000;
        let there: u64 = other.bits % 0x8000_0000_0000_0000;
        let here_signed: bool = self.bits >= 0x8000_0000_0000_0000;
        let there_signed: bool = other.bits >= 0x8000_0000_0000_0000;
        if here_signed && there_signed {
            there < here
        } else if here_signed {
            here > 0 || there > 0
        } else if there_signed {
            false
        } else {
            here < there
        }
    }

    /// Whether the coordinate is `other` or above it.
    pub fn is_at_least(&self, other: &Coordinate) -> (r: bool)
        ensures
            r == self.at_least(*other),
    {
        !self.is_nan() && !other.is_nan() && !self.is_below(other)
    }

    /// The coordinate as an unsigned integer of 64 bits: cut towards zero and kept in range.
    pub fn to_u64(&self) -> (r: u64)
        ensures
            r == self.clamped(u64::MAX as int),
    {
        let exponent: u64 = (self.bits / HIDDEN_BIT) % 0x800;
        let fraction: u64 = self.bits % HIDDEN_BIT;
        if self.bits >= 0x8000_0000_0000_0000 {
            return 0;
        }
        if exponent == 0x7ff {
            return if fraction == 0 { u64::MAX } else { 0 };
        }
        let significand: u64 = HIDDEN_BIT + fraction;
        if exponent >= 1087 {
            proof {
                lemma_far_exponent_is_large((exponent - 1075) as nat, significand as int);
            }
            u64::MAX
        } else if exponent >= 1075 {
            let shift: u64 = exponent - 1075;
            proof {
                lemma_near_exponent_fits(shift as nat, significand as int);
                lemma_u64_shl_is_mul(significand, shift);
            }
            significand << shift
        } else if exponent >= 1023 {
            let shift: u64 = 1075 - exponent;
            proof {
                lemma_u64_shr_is_div(significand, shift);
            }
            significand >> shift
        } else {
            0
        }
    }

    /// The coordinate as an unsigned integer of 32 bits: cut towards zero and kept in range.
    pub fn to_u32(&self) -> (r: u32)
        ensures
            r == self.clamped(u32::MAX as int),
    {
        let wide: u64 = self.to_u64();
        if wide > 0xffff_ffff {
            0xffff_ffff
        } else {
            wide as u32
        }
    }
}

/// Being below zero, being above zero and the order of the keys agree.
pub proof fn law_sign_follows_order(c: Coordinate)
    ensures
        c.negative() <==> c.below(Coordinate { bits: 0 }),
        c.positive() <==> (Coordinate { bits: 0 }).below(c),
{
}

/// What a coordinate is cut to lies from 0 to the limit.
pub proof fn law_clamped_in_range(c: Coordinate, limit: int)
    requires
        limit >= 0,
    ensures
        0 <= c.clamped(limit) <= limit,
{
    if c.exponent() < 1075 {
        lemma_pow2_pos((1075 - c.exponent()) as nat);
        if c.exponent() >= 1023 {
            lemma_div_pos_is_pos(
                HIDDEN_BIT + c.fraction(),
                pow2((1075 - c.exponent()) as nat) as int,
            );
        }
    } else {
        assert(0 <= (HIDDEN_BIT + c.fraction()) * pow2((c.exponent() - 1075) as nat))
            by (nonlinear_arith)
            requires
                0 <= HIDDEN_BIT + c.fraction(),
        ;
    }
}

/// Cutting to 32 bits is cutting to 64 bits and keeping what fits.
pub proof fn law_clamps_nest(c: Coordinate)
    ensures
        c.clamped(u32::MAX as int) == if c.clamped(u64::MAX as int) > u32::MAX {
            u32::MAX as int
        } else {
            c.clamped(u64::MAX as int)
        },
{
}

proof fn lemma_far_exponent_is_large(shift: nat, significand: int)
    requires
        shift >= 12,
        significand >= HIDDEN_BIT,
    ensures
        significand * pow2(shift) > u64::MAX,
{
    lemma2_to64();
    if shift > 12 {
        lemma_pow2_strictly_increases(12, shift);
    }
    assert(significand * pow2(shift) >= 0x10_0000_0000_0000 * 0x1000) by (nonlinear_arith)
        requires
            significand >= 0x10_0000_0000_0000,
            pow2(shift) >= 0x1000,
    ;
}

proof fn lemma_near_exponent_fits(shift: nat, significand: int)
    requires
        shift <= 11,
        0 <= significand < 2 * HIDDEN_BIT,
    ensures
        significand * pow2(shift) <= u64::MAX,
{
    lemma2_to64();
    lemma_pow2_pos(shift);
    if shift < 11 {
        lemma_pow2_strictly_increases(shift, 11);
    }
    assert(significand * pow2(shift) <= 0x1f_ffff_ffff_ffff * 0x800) by (nonlinear_arith)
        requires
            0 <= significand <= 0x1f_ffff_ffff_ffff,
            0 < pow2(shift) <= 0x800,
    ;
}

/// Bits below the sign order numbers: of two numbers above zero, the one with the larger bits is
/// larger, and of two below zero, the one with the smaller bits. What is below zero is below what
/// is not, but for the two zeros, which are equal. Where one is no number, neither is below the
/// other.
pub proof fn law_order_is_that_of_the_bits(a: Coordinate, b: Coordinate)
    ensures
        a.not_a_number() || b.not_a_number() ==> !a.below(b) && !a.at_least(b),
        !a.not_a_number() && !b.not_a_number() ==> {
            &&& a.below(b) != a.at_least(b)
            &&& !a.signed() && !b.signed() ==> (a.below(b) <==> a.bits < b.bits)
            &&& a.signed() && b.signed() ==> (a.below(b) <==> a.bits > b.bits)
            &&& a.signed() && !b.signed() ==> (a.below(b) <==> !(a.zero() && b.zero()))
            &&& !a.signed() && b.signed() ==> !a.below(b)
        },
{
}

/// What the bits say: the upper bit the sign, eleven bits the exponent, 52 bits the fraction; all
/// bits of the exponent set are an infinity or no number; and the number is below or above zero by
/// its sign, unless it is zero.
pub proof fn law_bits_are_read_by_the_format(c: Coordinate)
    ensures
        0 <= c.exponent() < 0x800,
        0 <= c.fraction() < 0x10_0000_0000_0000,
        c.bits == (if c.signed() {
            0x8000_0000_0000_0000int
        } else {
            0
        }) + c.exponent() * 0x10_0000_0000_0000 + c.fraction(),
        c.finite() <==> c.exponent() < 0x7ff,
        c.not_a_number() <==> c.exponent() == 0x7ff && c.fraction() > 0,
        c.zero() <==> c.bits == 0 || c.bits == 0x8000_0000_0000_0000,
        c.negative() <==> c.signed() && !c.zero() && !c.not_a_number(),
        c.positive() <==> !c.signed() && !c.zero() && !c.not_a_number(),
{
}

/// The whole part of a finite number that is not negative: the largest integer that does not
/// exceed it. The number is its significand times two to the exponent less 1075, and less than one
/// below an exponent of 1023.
pub proof fn law_whole_part_does_not_exceed(c: Coordinate)
    ensures
        c.exponent() < 1023 ==> c.integral() == 0,
        1023 <= c.exponent() < 1075 ==> c.integral() * pow2((1075 - c.exponent()) as nat)
            <= 0x10_0000_0000_0000 + c.fraction() < (c.integral() + 1) * pow2(
            (1075 - c.exponent()) as nat,
        ),
        1075 <= c.exponent() ==> c.integral() == (0x10_0000_0000_0000 + c.fraction()) * pow2(
            (c.exponent() - 1075) as nat,
        ),
{
    if 1023 <= c.exponent() < 1075 {
        let unit = pow2((1075 - c.exponent()) as nat) as int;
        lemma_pow2_pos((1075 - c.exponent()) as nat);
        let significand = HIDDEN_BIT + c.fraction();
        let whole = c.integral();
        assert(whole * unit <= significand < (whole + 1) * unit) by (nonlinear_arith)
            requires
                unit > 0,
                whole == significand / unit,
        ;
    }
}

/// A number is cut to its whole part where that is within the limit, and else to the limit; what is
/// below zero, and what is no number, to zero; and an infinity to the limit.
pub proof fn law_numbers_are_cut_to_their_whole_part(c: Coordinate, limit: int)
    ensures
        c.not_a_number() ==> c.clamped(limit) == 0,
        c.signed() ==> c.clamped(limit) == 0,
        !c.signed() && !c.finite() && !c.not_a_number() ==> c.clamped(limit) == limit,
        !c.signed() && c.finite() && c.integral() <= limit ==> c.clamped(limit) == c.integral(),
        !c.signed() && c.finite() && c.integral() > limit ==> c.clamped(limit) == limit,
{
}

} // verus!
