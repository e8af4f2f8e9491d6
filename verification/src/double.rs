//! IEEE 754 doubles held by their bit pattern.
//!
//! The controller stores, compares and hands on a few double-precision settings.
//! It never computes with them, so the bit pattern is all it has to hold.
use vstd::arithmetic::power2::{lemma_pow2_pos, lemma_pow2_strictly_increases, lemma_pow2_unfold, pow2};
use vstd::prelude::*;

verus! {

/// Bit pattern of `1.0`.
pub const ONE_BITS: u64 = 0x3ff0_0000_0000_0000;

/// The sign bit.
pub const SIGN_BIT: u64 = 0x8000_0000_0000_0000;

/// Bit pattern of positive infinity. Larger magnitudes are NaNs.
pub const INFINITY_BITS: u64 = 0x7ff0_0000_0000_0000;

/// One more than the largest stored fraction, `2^52`.
pub const FRACTION_SPAN: u64 = 0x0010_0000_0000_0000;

/// A double-precision number, held by its bit pattern.
#[derive(Clone, Copy, Debug)]
pub struct Double {
    pub bits: u64,
}

/// The number that the exponent and fraction bits stand for, counted in units of
/// `2^-1074`, the smallest positive double. In these units every finite double is an
/// integer. Infinity comes out as `2^1024`, above every finite double.
pub open spec fn units_of(magnitude: nat) -> nat {
    let exponent = magnitude / (FRACTION_SPAN as nat);
    let fraction = magnitude % (FRACTION_SPAN as nat);
    if exponent == 0 {
        fraction
    } else {
        (FRACTION_SPAN as nat + fraction) * pow2((exponent - 1) as nat)
    }
}

impl Double {
    /// Whether the sign bit is set.
    pub open spec fn is_negative(self) -> bool {
        self.bits >= SIGN_BIT
    }

    /// The bits below the sign bit.
    pub open spec fn magnitude(self) -> nat {
        if self.is_negative() {
            (self.bits - SIGN_BIT) as nat
        } else {
            self.bits as nat
        }
    }

    /// Whether this is not a number.
    pub open spec fn is_nan(self) -> bool {
        self.magnitude() > INFINITY_BITS
    }

    /// The exact value, in units of `2^-1074`.
    pub open spec fn units(self) -> int {
        if self.is_negative() {
            -(units_of(self.magnitude()) as int)
        } else {
            units_of(self.magnitude()) as int
        }
    }

    /// `self <= other` as doubles compare: never true of a NaN, by value otherwise.
    pub open spec fn at_most(self, other: Double) -> bool {
        !self.is_nan() && !other.is_nan() && self.units() <= other.units()
    }

    /// The larger of two doubles, where a NaN gives way to the other operand.
    pub open spec fn larger(self, other: Double) -> Double {
        if self.is_nan() || self.at_most(other) && !other.at_most(self) {
            other
        } else {
            self
        }
    }

    /// `1.0`.
    pub fn one() -> (r: Double)
        ensures
            r.bits == ONE_BITS,
    {
        Double { bits: ONE_BITS }
    }

    /// `0.0`.
    pub fn zero() -> (r: Double)
        ensures
            r.bits == 0,
    {
        Double { bits: 0 }
    }

    /// The magnitude bits, negated where the sign bit is set. This orders as the
    /// values do.
    fn sort_key(self) -> (r: i64)
        ensures
            r == if self.is_negative() {
                -(self.magnitude() as int)
            } else {
                self.magnitude() as int
            },
    {
        if self.bits >= SIGN_BIT {
            -((self.bits - SIGN_BIT) as i64)
        } else {
            self.bits as i64
        }
    }

    /// Whether this is not a number.
    pub fn nan(self) -> (r: bool)
        ensures
            r == self.is_nan(),
    {
        if self.bits >= SIGN_BIT {
            self.bits - SIGN_BIT > INFINITY_BITS
        } else {
            self.bits > INFINITY_BITS
        }
    }

    /// `self <= other`.
    pub fn le(self, other: Double) -> (r: bool)
        ensures
            r == self.at_most(other),
    {
        proof {
            lemma_units_order(self.magnitude(), other.magnitude());
            lemma_units_order(other.magnitude(), self.magnitude());
            lemma_units_zero(self.magnitude());
            lemma_units_zero(other.magnitude());
        }
        !self.nan() && !other.nan() && self.sort_key() <= other.sort_key()
    }

    /// The larger of the two, where a NaN gives way to the other operand.
    pub fn max(self, other: Double) -> (r: Double)
        ensures
            r == self.larger(other),
    {
        if self.nan() || self.le(other) && !other.le(self) {
            other
        } else {
            self
        }
    }
}

/// Larger magnitude bits stand for larger values.
proof fn lemma_units_order(a: nat, b: nat)
    ensures
        a < b ==> units_of(a) < units_of(b),
{
    if a < b {
        let span = FRACTION_SPAN as nat;
        let (ea, fa) = (a / span, a % span);
        let (eb, fb) = (b / span, b % span);
        assert(a == span * ea + fa && b == span * eb + fb && fa < span && fb < span);
        if ea == eb {
            assert(fa < fb);
            if ea > 0 {
                let scale = pow2((ea - 1) as nat);
                lemma_pow2_pos((ea - 1) as nat);
                assert((span + fa) * scale < (span + fb) * scale) by (nonlinear_arith)
                    requires
                        fa < fb,
                        scale > 0,
                ;
            }
        } else {
            assert(ea < eb) by {
                if eb < ea {
                    assert(span * (eb + 1) <= span * ea) by (nonlinear_arith)
                        requires
                            eb + 1 <= ea,
                            span > 0,
                    ;
                }
            }
            // Below the step to the next exponent on one side, at or above it on the other.
            lemma_pow2_pos(ea);
            assert(units_of(a) < span * pow2(ea)) by {
                if ea > 0 {
                    let scale = pow2((ea - 1) as nat);
                    lemma_pow2_pos((ea - 1) as nat);
                    lemma_pow2_unfold(ea);
                    assert((span + fa) * scale < span * (2 * scale)) by (nonlinear_arith)
                        requires
                            fa < span,
                            scale > 0,
                    ;
                } else {
                    vstd::arithmetic::power2::lemma2_to64();
                }
            }
            let top = pow2((eb - 1) as nat);
            if ea < eb - 1 {
                lemma_pow2_strictly_increases(ea, (eb - 1) as nat);
            }
            assert(span * pow2(ea) <= (span + fb) * top) by (nonlinear_arith)
                requires
                    pow2(ea) <= top,
            ;
        }
    }
}

/// Only the zero pattern stands for zero.
proof fn lemma_units_zero(a: nat)
    ensures
        units_of(0) == 0,
        a > 0 ==> units_of(a) > 0,
{
    lemma_units_order(0, a);
}

/// Of two doubles that are numbers, one is at most the other.
pub proof fn law_numbers_are_ordered(a: Double, b: Double)
    requires
        !a.is_nan(),
        !b.is_nan(),
    ensures
        a.at_most(b) || b.at_most(a),
{
}

/// The larger of two numbers is one of them, and neither is above it.
pub proof fn law_larger_bounds_both(a: Double, b: Double)
    requires
        !a.is_nan(),
        !b.is_nan(),
    ensures
        a.at_most(a.larger(b)),
        b.at_most(a.larger(b)),
        a.larger(b) == a || a.larger(b) == b,
{
}

/// No number without a sign is below `0.0`, and only `0.0` itself is not above it.
pub proof fn law_zero_is_the_least(a: Double)
    requires
        !a.is_nan(),
        !a.is_negative(),
    ensures
        (Double { bits: 0 }).at_most(a),
        a.at_most((Double { bits: 0 })) <==> a.bits == 0,
{
    lemma_units_zero(a.magnitude());
}

/// The smallest doubles count up one by one: below twice the smallest normal double the
/// bits are the value.
pub proof fn law_small_doubles_count_up(magnitude: nat)
    requires
        magnitude < 0x0020_0000_0000_0000,
    ensures
        units_of(magnitude) == magnitude,
{
    vstd::arithmetic::power2::lemma2_to64();
    if magnitude >= FRACTION_SPAN {
        assert(magnitude / (FRACTION_SPAN as nat) == 1);
        assert(magnitude % (FRACTION_SPAN as nat) == magnitude - FRACTION_SPAN);
        assert((FRACTION_SPAN as nat + (magnitude - FRACTION_SPAN) as nat) * pow2(0) == magnitude)
            by (nonlinear_arith)
            requires
                pow2(0) == 1,
                magnitude >= FRACTION_SPAN,
        ;
    }
}

/// One step of the exponent doubles the value of a normal double.
pub proof fn law_exponent_step_doubles(magnitude: nat)
    requires
        magnitude >= 0x0010_0000_0000_0000,
    ensures
        units_of(magnitude + 0x0010_0000_0000_0000) == 2 * units_of(magnitude),
{
    let span = FRACTION_SPAN as nat;
    let exponent = magnitude / span;
    let fraction = magnitude % span;
    assert((magnitude + span) / span == exponent + 1);
    assert((magnitude + span) % span == fraction);
    lemma_pow2_unfold(exponent);
    let scale = pow2((exponent - 1) as nat);
    assert((span + fraction) * (2 * scale) == 2 * ((span + fraction) * scale))
        by (nonlinear_arith);
}

/// The sign bit turns a value into its negative and is the only bit that does.
pub proof fn law_sign_bit_negates(a: Double)
    ensures
        a.bits < 0x8000_0000_0000_0000 ==> a.units() == units_of(a.bits as nat),
        a.bits >= 0x8000_0000_0000_0000 ==> a.units() == -units_of(
            (a.bits - 0x8000_0000_0000_0000) as nat,
        ),
{
}

/// What is not a number is told by the bits: those below the sign bit are past infinity.
pub proof fn law_nan_by_bits(a: Double)
    ensures
        a.is_nan() <==> {
            ||| 0x7ff0_0000_0000_0000 < a.bits < 0x8000_0000_0000_0000
            ||| 0xfff0_0000_0000_0000 < a.bits
        },
{
}

/// Of two numbers the bits tell the order: upwards without a sign, downwards with one, and
/// signed before unsigned, but for the two zeros, which are equal.
pub proof fn law_order_by_bits(a: Double, b: Double)
    requires
        !a.is_nan(),
        !b.is_nan(),
    ensures
        a.bits < 0x8000_0000_0000_0000 && b.bits < 0x8000_0000_0000_0000 ==> (a.at_most(b)
            <==> a.bits <= b.bits),
        a.bits >= 0x8000_0000_0000_0000 && b.bits >= 0x8000_0000_0000_0000 ==> (a.at_most(b)
            <==> b.bits <= a.bits),
        a.bits >= 0x8000_0000_0000_0000 && b.bits < 0x8000_0000_0000_0000 ==> a.at_most(b),
        a.bits < 0x8000_0000_0000_0000 && b.bits >= 0x8000_0000_0000_0000 ==> (a.at_most(b)
            <==> a.bits == 0 && b.bits == 0x8000_0000_0000_0000),
{
    lemma_units_order(a.magnitude(), b.magnitude());
    lemma_units_order(b.magnitude(), a.magnitude());
    lemma_units_zero(a.magnitude());
    lemma_units_zero(b.magnitude());
}

/// What is not a number is at most nothing, and nothing is at most it.
pub proof fn law_nan_compares_with_nothing(a: Double, b: Double)
    requires
        a.is_nan() || b.is_nan(),
    ensures
        !a.at_most(b),
{
}

/// Whatever is at most a double that is at most a third is at most the third.
pub proof fn law_order_is_transitive(a: Double, b: Double, c: Double)
    requires
        a.at_most(b),
        b.at_most(c),
    ensures
        a.at_most(c),
{
}

/// Of two doubles, what is not a number gives way to the other one, and otherwise the one
/// that the other is at most wins.
pub proof fn law_larger_by_order(a: Double, b: Double)
    ensures
        a.is_nan() ==> a.larger(b) == b,
        b.is_nan() && !a.is_nan() ==> a.larger(b) == a,
        a.at_most(b) && !b.at_most(a) ==> a.larger(b) == b,
        b.at_most(a) ==> a.larger(b) == a,
{
}

} // verus!
