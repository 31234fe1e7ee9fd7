use vstd::arithmetic::power2::{
    lemma2_to64, lemma_pow2_adds, lemma_pow2_pos, lemma_pow2_strictly_increases,
    lemma_pow2_unfold, pow2,
};
use vstd::prelude::*;

verus! {

/// The sign bit of a single-precision pattern.
pub const SIGN_BIT: u32 = 0x8000_0000;

/// The pattern of positive infinity: every larger magnitude is not a number.
pub const INFINITY_BITS: u32 = 0x7f80_0000;

/// The pattern of the number one.
pub const ONE_BITS: u32 = 0x3f80_0000;

/// Two to the power of 23: the weight of the lowest exponent bit in a pattern,
/// and the leading bit that a normal number's fraction leaves out.
pub const HIDDEN_BIT: u32 = 0x80_0000;

/// An IEEE-754 single-precision number, held by its bit pattern.
///
/// The core never does arithmetic on such a number. It carries it, and it
/// compares it. What a comparison of patterns says of the numbers they encode
/// is stated over [`Single::units`].
#[derive(Clone, Copy, Debug, PartialEq, Eq, Hash, Structural)]
pub struct Single {
    pub bits: u32,
}

impl Single {
    /// The pattern without its sign bit: the pattern of the absolute value.
    pub open spec fn magnitude(self) -> u32 {
        self.bits & !SIGN_BIT
    }

    /// Whether the pattern encodes no number at all.
    pub open spec fn is_nan(self) -> bool {
        self.magnitude() > INFINITY_BITS
    }

    /// The exponent field of the pattern.
    pub open spec fn exponent(self) -> nat {
        (self.magnitude() / HIDDEN_BIT) as nat
    }

    /// The fraction field of the pattern.
    pub open spec fn fraction(self) -> nat {
        (self.magnitude() % HIDDEN_BIT) as nat
    }

    /// The absolute value of the number, counted in units of two to the power
    /// of minus 149, the smallest step there is. A pattern with an exponent
    /// field of zero encodes its fraction in these units; any other encodes its
    /// fraction and the hidden bit, doubled once for each step of the exponent
    /// above one. Infinity counts as the next power of two above every number.
    pub open spec fn units(self) -> nat {
        if self.exponent() == 0 {
            self.fraction()
        } else {
            ((HIDDEN_BIT + self.fraction()) * pow2((self.exponent() - 1) as nat)) as nat
        }
    }

    /// Whether the sign bit is set.
    pub open spec fn is_negative(self) -> bool {
        self.bits >= SIGN_BIT
    }

    /// Whether the number is zero, of either sign.
    pub open spec fn is_zero(self) -> bool {
        self.magnitude() == 0
    }

    /// Whether both are numbers and the same number: the same absolute value,
    /// and the same sign unless they are zero.
    pub open spec fn same_number(self, other: Single) -> bool {
        &&& !self.is_nan()
        &&& !other.is_nan()
        &&& self.units() == other.units()
        &&& self.is_negative() == other.is_negative() || self.units() == 0
    }

    /// Whether both are numbers and the absolute value of `self` is greater
    /// than that of `bound`.
    pub open spec fn exceeds(self, bound: Single) -> bool {
        !self.is_nan() && !bound.is_nan() && self.units() > bound.units()
    }

    /// Whether `self` is a number whose absolute value is greater than the
    /// whole number `whole`.
    pub open spec fn exceeds_whole(self, whole: nat) -> bool {
        !self.is_nan() && self.units() > whole * pow2(149)
    }

    /// Whether the number is at least zero and less than one; of the two
    /// zeros, only the one without a sign.
    pub open spec fn is_unit_fraction(self) -> bool {
        self.bits < SIGN_BIT && !self.is_nan() && self.units() < pow2(149)
    }

    /// Positive zero.
    pub fn zero() -> (zero: Single)
        ensures
            zero.bits == 0,
            zero.is_zero(),
    {
        assert(0u32 & !0x8000_0000u32 == 0u32) by (bit_vector);
        Single { bits: 0 }
    }

    /// Tells whether the number differs from zero, as a comparison of the
    /// numbers would: true of every pattern but the two zeros.
    pub fn is_nonzero(self) -> (nonzero: bool)
        ensures
            nonzero == !self.is_zero(),
    {
        (self.bits & !SIGN_BIT) != 0
    }

    /// Tells whether the two are the same number, as a comparison of the
    /// numbers would: the two zeros are the same, and what is not a number is
    /// the same as nothing.
    pub fn equals(self, other: Single) -> (same: bool)
        ensures
            same == self.same_number(other),
    {
        let mine: u32 = self.bits & !SIGN_BIT;
        let theirs: u32 = other.bits & !SIGN_BIT;
        proof {
            let a = self.bits;
            let b = other.bits;
            assert(a == b <==> (a & !0x8000_0000u32 == b & !0x8000_0000u32 && (a >= 0x8000_0000u32
                <==> b >= 0x8000_0000u32))) by (bit_vector);
            if mine <= INFINITY_BITS && theirs <= INFINITY_BITS {
                Single::lemma_units_follow_patterns(self, other);
                self.lemma_zero_is_no_units();
                other.lemma_zero_is_no_units();
            }
        }
        mine <= INFINITY_BITS && theirs <= INFINITY_BITS && (self.bits == other.bits || (mine == 0
            && theirs == 0))
    }

    /// Tells whether the absolute value of `self` is greater than that of
    /// `bound`; false where either is not a number.
    pub fn magnitude_exceeds(self, bound: Single) -> (beyond: bool)
        ensures
            beyond == self.exceeds(bound),
    {
        let magnitude: u32 = self.bits & !SIGN_BIT;
        let limit: u32 = bound.bits & !SIGN_BIT;
        proof {
            if magnitude <= INFINITY_BITS && limit <= INFINITY_BITS {
                Single::lemma_units_follow_patterns(self, bound);
            }
        }
        limit < magnitude && magnitude <= INFINITY_BITS
    }

    /// Tells whether the number is at least zero and less than one.
    pub fn in_unit_interval(self) -> (inside: bool)
        ensures
            inside == self.is_unit_fraction(),
    {
        let inside = self.bits < ONE_BITS;
        proof {
            let bits = self.bits;
            let one = Single { bits: ONE_BITS };
            assert(bits < 0x8000_0000u32 ==> bits & !0x8000_0000u32 == bits) by (bit_vector);
            assert(0x3f80_0000u32 & !0x8000_0000u32 == 0x3f80_0000u32) by (bit_vector);
            assert(one.magnitude() == ONE_BITS);
            Single::lemma_whole_patterns();
            if self.bits < SIGN_BIT {
                assert(self.magnitude() == self.bits);
                if !self.is_nan() {
                    Single::lemma_units_follow_patterns(self, one);
                }
            }
        }
        inside
    }

    /// The fields of a pattern make up its magnitude, and a pattern that is a
    /// number has an exponent field of at most 255.
    pub proof fn lemma_fields(self)
        ensures
            self.magnitude() == self.exponent() * HIDDEN_BIT + self.fraction(),
            self.fraction() < HIDDEN_BIT,
            self.exponent() <= 255,
            !self.is_nan() && self.exponent() == 255 ==> self.fraction() == 0,
    {
        let bits = self.bits;
        assert(bits & !0x8000_0000u32 < 0x8000_0000u32) by (bit_vector);
    }

    /// Among numbers, the larger pattern encodes the larger absolute value.
    proof fn lemma_units_rise(smaller: Single, larger: Single)
        requires
            smaller.magnitude() < larger.magnitude() <= INFINITY_BITS,
        ensures
            smaller.units() < larger.units(),
    {
        smaller.lemma_fields();
        larger.lemma_fields();
        let low = smaller.exponent();
        let high = larger.exponent();
        let small = smaller.fraction();
        let large = larger.fraction();
        if low == high {
            if low != 0 {
                let step = pow2((low - 1) as nat);
                lemma_pow2_pos((low - 1) as nat);
                assert((HIDDEN_BIT + small) * step < (HIDDEN_BIT + large) * step)
                    by (nonlinear_arith)
                    requires
                        small < large,
                        step > 0,
                ;
            }
        } else {
            assert(low < high);
            let above = pow2((high - 1) as nat);
            lemma_pow2_pos((high - 1) as nat);
            assert(HIDDEN_BIT * above <= (HIDDEN_BIT + large) * above) by (nonlinear_arith)
                requires
                    large >= 0,
                    above > 0,
            ;
            if low == 0 {
                assert(HIDDEN_BIT * 1 <= HIDDEN_BIT * above) by (nonlinear_arith)
                    requires
                        above >= 1,
                ;
            } else {
                let step = pow2((low - 1) as nat);
                lemma_pow2_pos((low - 1) as nat);
                lemma_pow2_unfold(low);
                assert(pow2(low) == 2 * step);
                if low < high - 1 {
                    lemma_pow2_strictly_increases(low, (high - 1) as nat);
                }
                assert(pow2(low) <= above);
                assert((HIDDEN_BIT + small) * step < HIDDEN_BIT * (2 * step))
                    by (nonlinear_arith)
                    requires
                        small < HIDDEN_BIT,
                        step > 0,
                ;
                assert(HIDDEN_BIT * (2 * step) <= HIDDEN_BIT * above) by (nonlinear_arith)
                    requires
                        2 * step <= above,
                ;
            }
        }
    }

    /// Patterns of numbers compare as the absolute values that they encode.
    pub proof fn lemma_units_follow_patterns(a: Single, b: Single)
        requires
            !a.is_nan(),
            !b.is_nan(),
        ensures
            a.magnitude() < b.magnitude() <==> a.units() < b.units(),
            a.magnitude() == b.magnitude() <==> a.units() == b.units(),
    {
        if a.magnitude() < b.magnitude() {
            Single::lemma_units_rise(a, b);
        }
        if b.magnitude() < a.magnitude() {
            Single::lemma_units_rise(b, a);
        }
    }

    /// The patterns of one, of 300 and of 600 encode these numbers, and the
    /// pattern of zero encodes zero.
    pub proof fn lemma_whole_patterns()
        ensures
            (Single { bits: 0 }).units() == 0,
            (Single { bits: ONE_BITS }).units() == pow2(149),
            (Single { bits: 0x4396_0000 }).units() == 300 * pow2(149),
            (Single { bits: 0x4416_0000 }).units() == 600 * pow2(149),
            !(Single { bits: ONE_BITS }).is_nan(),
            !(Single { bits: 0x4396_0000 }).is_nan(),
            !(Single { bits: 0x4416_0000 }).is_nan(),
    {
        assert(0u32 & !0x8000_0000u32 == 0u32) by (bit_vector);
        assert(0x3f80_0000u32 & !0x8000_0000u32 == 0x3f80_0000u32) by (bit_vector);
        assert(0x4396_0000u32 & !0x8000_0000u32 == 0x4396_0000u32) by (bit_vector);
        assert(0x4416_0000u32 & !0x8000_0000u32 == 0x4416_0000u32) by (bit_vector);
        lemma2_to64();
        lemma_pow2_adds(23, 126);
        lemma_pow2_adds(15, 134);
        lemma_pow2_adds(14, 135);
        assert((Single { bits: ONE_BITS }).exponent() == 127);
        assert((Single { bits: 0x4396_0000 }).exponent() == 135);
        assert((Single { bits: 0x4396_0000 }).fraction() == 0x16_0000);
        assert((Single { bits: 0x4416_0000 }).exponent() == 136);
        assert((Single { bits: 0x4416_0000 }).fraction() == 0x16_0000);
    }

    /// Only the two zeros encode the number zero.
    pub proof fn lemma_zero_is_no_units(self)
        requires
            !self.is_nan(),
        ensures
            self.is_zero() <==> self.units() == 0,
    {
        Single::lemma_whole_patterns();
        assert(0u32 & !0x8000_0000u32 == 0u32) by (bit_vector);
        Single::lemma_units_follow_patterns(self, Single { bits: 0 });
    }
}

} // verus!
