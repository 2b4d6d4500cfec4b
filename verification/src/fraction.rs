//! Exact fixed-point fractions on two fixed scales.
//!
//! A [`Billionths`] value holds a fraction in `[0, 1]` as a count of
//! billionths; a [`Hundredths`] value holds one as a count of hundredths.
//! Both scale a supply amount by the fraction without ever overflowing, the
//! first rounding up (so a minted amount is never silently truncated below
//! the formula's true value), the second rounding down (so a split share
//! never overshoots its target). [`Billionths::saturating_pow`] folds the
//! fraction onto itself once per era, which is how the decay factor of the
//! inflation schedule is formed.

use vstd::arithmetic::div_mod::{
    lemma_div_is_ordered, lemma_div_multiples_vanish, lemma_div_multiples_vanish_fancy,
    lemma_div_pos_is_pos, lemma_fundamental_div_mod, lemma_hoist_over_denominator,
};
use vstd::arithmetic::mul::{
    lemma_mul_inequality, lemma_mul_is_commutative, lemma_mul_nonnegative, lemma_mul_upper_bound,
};
use vstd::prelude::*;

verus! {

/// Scale of a high-precision fraction: one whole is this many parts.
pub const BILLION: u64 = 1_000_000_000;

/// Scale of a coarse fraction: one whole is this many parts.
pub const HUNDRED: u8 = 100;

/// `ceil((parts / BILLION) * amount)` in exact integer arithmetic.
pub open spec fn billionths_mul_ceil(parts: int, amount: int) -> int {
    (parts * amount + (BILLION - 1)) / (BILLION as int)
}

/// `floor((parts / HUNDRED) * amount)` in exact integer arithmetic.
pub open spec fn hundredths_mul_floor(parts: int, amount: int) -> int {
    (parts * amount) / (HUNDRED as int)
}

/// `numerator / denominator` brought onto a scale of `scale` parts and
/// clamped to `[0, 1]`: a zero denominator counts as one, and a ratio above
/// one saturates to one whole.
pub open spec fn clamped_ratio(numerator: int, denominator: int, scale: int) -> int {
    let d: int = if denominator == 0 { 1 } else { denominator };
    let n: int = if numerator > d { d } else { numerator };
    n * scale / d
}

/// The decay factor after `e` eras at a per-era rate of `base` parts: one
/// whole, folded `e` times by `base / BILLION`, the product brought back onto
/// the `BILLION` scale after every step with the remainder rounded down.
pub open spec fn pow_parts(base: int, e: nat) -> int
    decreases e,
{
    if e == 0 {
        BILLION as int
    } else {
        pow_parts(base, (e - 1) as nat) * base / (BILLION as int)
    }
}

/// A sub-unity fraction folded onto itself stays within `[0, 1]`.
pub proof fn lemma_pow_parts_bounds(base: int, e: nat)
    requires
        0 <= base <= BILLION,
    ensures
        0 <= pow_parts(base, e) <= BILLION,
    decreases e,
{
    if e > 0 {
        lemma_pow_parts_bounds(base, (e - 1) as nat);
        let p: int = pow_parts(base, (e - 1) as nat);
        lemma_mul_nonnegative(p, base);
        lemma_mul_upper_bound(p, BILLION as int, base, BILLION as int);
        lemma_div_is_ordered(p * base, (BILLION as int) * (BILLION as int), BILLION as int);
        lemma_div_multiples_vanish(BILLION as int, BILLION as int);
        lemma_div_pos_is_pos(p * base, BILLION as int);
    }
}

/// Once the folded product has hit zero it stays zero for every later era.
pub proof fn lemma_pow_parts_zero_absorbs(base: int, i: nat, e: nat)
    requires
        0 <= base,
        i <= e,
        pow_parts(base, i) == 0,
    ensures
        pow_parts(base, e) == 0,
    decreases e - i,
{
    if e > i {
        lemma_pow_parts_zero_absorbs(base, i, (e - 1) as nat);
        assert(pow_parts(base, e) == pow_parts(base, (e - 1) as nat) * base / (BILLION as int));
    }
}

/// The decay factor never grows from one era to a later one.
pub proof fn lemma_pow_parts_nonincreasing(base: int, early: nat, late: nat)
    requires
        0 <= base <= BILLION,
        early <= late,
    ensures
        pow_parts(base, late) <= pow_parts(base, early),
    decreases late - early,
{
    if late > early {
        lemma_pow_parts_nonincreasing(base, early, (late - 1) as nat);
        let p: int = pow_parts(base, (late - 1) as nat);
        lemma_pow_parts_bounds(base, (late - 1) as nat);
        lemma_mul_upper_bound(p, p, base, BILLION as int);
        lemma_mul_is_commutative(p, BILLION as int);
        lemma_div_is_ordered(p * base, (BILLION as int) * p, BILLION as int);
        lemma_div_multiples_vanish(p, BILLION as int);
    }
}

/// Ceiling-scaling a nonnegative amount never yields a negative result.
pub proof fn lemma_mul_ceil_nonneg(parts: int, amount: int)
    requires
        0 <= parts,
        0 <= amount,
    ensures
        0 <= billionths_mul_ceil(parts, amount),
{
    lemma_mul_nonnegative(parts, amount);
    lemma_div_pos_is_pos(parts * amount + (BILLION as int - 1), BILLION as int);
}

/// Floor-scaling by a sub-unity fraction stays between zero and the amount.
pub proof fn lemma_mul_floor_bounds(parts: int, amount: int)
    requires
        0 <= parts <= HUNDRED,
        0 <= amount,
    ensures
        0 <= hundredths_mul_floor(parts, amount) <= amount,
{
    lemma_mul_nonnegative(parts, amount);
    lemma_div_pos_is_pos(parts * amount, HUNDRED as int);
    lemma_mul_inequality(parts, HUNDRED as int, amount);
    lemma_div_is_ordered(parts * amount, (HUNDRED as int) * amount, HUNDRED as int);
    lemma_div_multiples_vanish(amount, HUNDRED as int);
}

/// Scaling up by a larger sub-unity fraction never yields less.
pub proof fn lemma_mul_ceil_monotone_in_parts(parts_small: int, parts_large: int, amount: int)
    requires
        0 <= parts_small <= parts_large,
        0 <= amount,
    ensures
        billionths_mul_ceil(parts_small, amount) <= billionths_mul_ceil(parts_large, amount),
{
    lemma_mul_inequality(parts_small, parts_large, amount);
    lemma_div_is_ordered(
        parts_small * amount + (BILLION as int - 1),
        parts_large * amount + (BILLION as int - 1),
        BILLION as int,
    );
}

/// A fixed-point fraction in `[0, 1]` held as billionths of one.
#[derive(Clone, Copy, Debug, PartialEq, Eq, Structural)]
pub struct Billionths {
    /// Billionths of one; a valid fraction stays at or below `BILLION`.
    pub parts: u64,
}

impl Billionths {
    /// The fraction lies in the representable range `[0, 1]`.
    pub open spec fn is_valid(self) -> bool {
        self.parts <= BILLION
    }

    /// Builds `numerator / denominator` at billionths precision, clamped to
    /// `[0, 1]`: the construction-time validation of a policy rate.
    pub fn from_rational(numerator: u64, denominator: u64) -> (r: Billionths)
        ensures
            r.parts == clamped_ratio(numerator as int, denominator as int, BILLION as int),
            r.is_valid(),
    {
        let d: u64 = if denominator == 0 { 1 } else { denominator };
        let n: u64 = if numerator > d { d } else { numerator };
        proof {
            lemma_mul_upper_bound(n as int, u64::MAX as int, BILLION as int, BILLION as int);
        }
        let wide: u128 = (n as u128) * (BILLION as u128) / (d as u128);
        proof {
            lemma_mul_inequality(n as int, d as int, BILLION as int);
            lemma_div_is_ordered(
                (n as int) * (BILLION as int),
                (d as int) * (BILLION as int),
                d as int,
            );
            lemma_mul_is_commutative(d as int, BILLION as int);
            lemma_div_multiples_vanish(BILLION as int, d as int);
        }
        Billionths { parts: wide as u64 }
    }

    /// `ceil(self * amount)`, free of overflow: the amount is split at the
    /// scale so that both partial products stay narrow.
    pub fn mul_ceil(self, amount: u128) -> (r: u128)
        requires
            self.is_valid(),
        ensures
            r == billionths_mul_ceil(self.parts as int, amount as int),
            r <= amount,
    {
        let scale: u128 = BILLION as u128;
        let q: u128 = amount / scale;
        let rem: u128 = amount % scale;
        let p: u128 = self.parts as u128;
        proof {
            lemma_fundamental_div_mod(amount as int, scale as int);
            lemma_mul_inequality(p as int, scale as int, q as int);
            lemma_mul_is_commutative(p as int, q as int);
            lemma_mul_is_commutative(scale as int, q as int);
            lemma_mul_upper_bound(rem as int, scale as int - 1, p as int, scale as int);
        }
        let high: u128 = q * p;
        let low: u128 = (rem * p + (scale - 1)) / scale;
        proof {
            lemma_hoist_over_denominator(
                (rem as int) * (p as int) + (scale as int - 1),
                high as int,
                scale as nat,
            );
            assert((p as int) * (amount as int) == (high as int) * (scale as int) + (rem as int)
                * (p as int)) by (nonlinear_arith)
                requires
                    amount as int == (scale as int) * (q as int) + (rem as int),
                    high as int == (q as int) * (p as int);
            lemma_mul_inequality(p as int, scale as int, amount as int);
            lemma_div_is_ordered(
                (p as int) * (amount as int) + (scale as int - 1),
                (scale as int) * (amount as int) + (scale as int - 1),
                scale as int,
            );
            lemma_div_multiples_vanish_fancy(amount as int, scale as int - 1, scale as int);
        }
        high + low
    }

    /// `self` raised to `exponent` by repeated saturating multiplication,
    /// clamped at the representable minimum: once the folded product reaches
    /// zero it is zero for good, so the walk stops there early.
    pub fn saturating_pow(self, exponent: u32) -> (r: Billionths)
        requires
            self.is_valid(),
        ensures
            r.parts == pow_parts(self.parts as int, exponent as nat),
            r.is_valid(),
    {
        let base: u64 = self.parts;
        let mut result: u64 = BILLION;
        let mut i: u32 = 0;
        while i < exponent && result != 0
            invariant
                i <= exponent,
                base <= BILLION,
                result == pow_parts(base as int, i as nat),
                result <= BILLION,
            decreases exponent - i,
        {
            proof {
                lemma_mul_upper_bound(result as int, BILLION as int, base as int, BILLION as int);
                lemma_div_is_ordered(
                    (result as int) * (base as int),
                    (BILLION as int) * (BILLION as int),
                    BILLION as int,
                );
                lemma_div_multiples_vanish(BILLION as int, BILLION as int);
            }
            result = result * base / BILLION;
            i = i + 1;
        }
        proof {
            if result == 0 {
                lemma_pow_parts_zero_absorbs(base as int, i as nat, exponent as nat);
            }
        }
        Billionths { parts: result }
    }
}

/// A coarse fixed-point fraction in `[0, 1]` held as hundredths of one.
#[derive(Clone, Copy, Debug, PartialEq, Eq, Structural)]
pub struct Hundredths {
    /// Hundredths of one; a valid fraction stays at or below `HUNDRED`.
    pub parts: u8,
}

impl Hundredths {
    /// The fraction lies in the representable range `[0, 1]`.
    pub open spec fn is_valid(self) -> bool {
        self.parts <= HUNDRED
    }

    /// Builds `numerator / denominator` at hundredths precision, clamped to
    /// `[0, 1]`: the construction-time validation of a split ratio.
    pub fn from_rational(numerator: u32, denominator: u32) -> (r: Hundredths)
        ensures
            r.parts == clamped_ratio(numerator as int, denominator as int, HUNDRED as int),
            r.is_valid(),
    {
        let d: u32 = if denominator == 0 { 1 } else { denominator };
        let n: u32 = if numerator > d { d } else { numerator };
        proof {
            lemma_mul_upper_bound(n as int, u32::MAX as int, HUNDRED as int, HUNDRED as int);
        }
        let wide: u64 = (n as u64) * (HUNDRED as u64) / (d as u64);
        proof {
            lemma_mul_inequality(n as int, d as int, HUNDRED as int);
            lemma_div_is_ordered(
                (n as int) * (HUNDRED as int),
                (d as int) * (HUNDRED as int),
                d as int,
            );
            lemma_mul_is_commutative(d as int, HUNDRED as int);
            lemma_div_multiples_vanish(HUNDRED as int, d as int);
        }
        Hundredths { parts: wide as u8 }
    }

    /// `floor(self * amount)`, free of overflow: the amount is split at the
    /// scale so that both partial products stay narrow.
    pub fn mul_floor(self, amount: u128) -> (r: u128)
        requires
            self.is_valid(),
        ensures
            r == hundredths_mul_floor(self.parts as int, amount as int),
            r <= amount,
    {
        let scale: u128 = HUNDRED as u128;
        let q: u128 = amount / scale;
        let rem: u128 = amount % scale;
        let p: u128 = self.parts as u128;
        proof {
            lemma_fundamental_div_mod(amount as int, scale as int);
            lemma_mul_inequality(p as int, scale as int, q as int);
            lemma_mul_is_commutative(p as int, q as int);
            lemma_mul_is_commutative(scale as int, q as int);
            lemma_mul_upper_bound(rem as int, scale as int - 1, p as int, scale as int);
        }
        let high: u128 = q * p;
        let low: u128 = rem * p / scale;
        proof {
            lemma_hoist_over_denominator((rem as int) * (p as int), high as int, scale as nat);
            assert((p as int) * (amount as int) == (high as int) * (scale as int) + (rem as int)
                * (p as int)) by (nonlinear_arith)
                requires
                    amount as int == (scale as int) * (q as int) + (rem as int),
                    high as int == (q as int) * (p as int);
            lemma_mul_inequality(p as int, scale as int, amount as int);
            lemma_div_is_ordered(
                (p as int) * (amount as int),
                (scale as int) * (amount as int),
                scale as int,
            );
            lemma_div_multiples_vanish(amount as int, scale as int);
        }
        high + low
    }
}

} // verus!
