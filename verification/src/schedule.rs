//! The era-indexed inflation schedule.
//!
//! An [`InflationSchedule`] gathers the policy constants — bonus rate, decay
//! rate, staker/treasury split ratio, cutover era and final supply target —
//! and [`InflationSchedule::compute_payout`] evaluates them at one era. The
//! schedule runs through three phases, picked by comparing the era index to
//! the cutover era:
//!
//! * **growth**, before the cutover: the payout follows the decaying
//!   inflation formula;
//! * **cutover**, at exactly the cutover era: one final mint brings total
//!   issuance up to the final supply target;
//! * **terminal**, after the cutover: nothing is minted any more.
//!
//! The staker payout is computed from `total_tokens`, the fixed reference
//! quantity; the maximum payout and the cap on the staker share from
//! `total_issuance`, the currently existing supply. When the two fall apart
//! the cap wins: the staker share is clamped down to the floor-rounded split
//! of the maximum payout, never the reverse.
//!
//! Every step saturates or is proved free of overflow, so the computation is
//! total: no era index and no supply value can make it fault.

use crate::fraction::{
    billionths_mul_ceil, hundredths_mul_floor, lemma_mul_ceil_monotone_in_parts,
    lemma_mul_ceil_nonneg, lemma_mul_floor_bounds, lemma_pow_parts_bounds,
    lemma_pow_parts_nonincreasing, pow_parts, Billionths, Hundredths,
};
use vstd::prelude::*;

verus! {

/// Numerator of the one-time growth bonus rate, in billionths.
pub const BONUS_RATE_NUMERATOR: u64 = 233_278;

/// Numerator of the per-era decay rate, in billionths.
pub const DECAY_RATE_NUMERATOR: u64 = 999_950_000;

/// Denominator shared by the two high-precision policy rates.
pub const RATE_DENOMINATOR: u64 = 1_000_000_000;

/// Numerator of the staker/treasury split ratio.
pub const SPLIT_RATIO_NUMERATOR: u32 = 7;

/// Denominator of the staker/treasury split ratio.
pub const SPLIT_RATIO_DENOMINATOR: u32 = 10;

/// The era at which the growth phase ends with one final mint.
pub const CUTOVER_ERA: u32 = 360_000;

/// The hard supply ceiling that the cutover mint fills up to.
pub const FINAL_SUPPLY_TARGET: u128 = 7_777_777_777;

/// `x + y` clamped to the largest representable supply amount.
pub open spec fn sat_add_amount(x: int, y: int) -> int {
    if x + y > u128::MAX {
        u128::MAX as int
    } else {
        x + y
    }
}

/// `x - y` clamped to zero.
pub open spec fn sat_sub_amount(x: int, y: int) -> int {
    if x >= y {
        x - y
    } else {
        0
    }
}

/// The smaller of two amounts.
pub open spec fn min_amount(x: int, y: int) -> int {
    if x <= y {
        x
    } else {
        y
    }
}

/// The three phases of the schedule, picked once per call by comparing the
/// era index to the cutover era.
#[derive(Clone, Copy, Debug, PartialEq, Eq, Structural)]
pub enum Phase {
    /// Before the cutover era: mint along the decaying inflation formula.
    Growth,
    /// Exactly the cutover era: one final mint up to the supply target.
    Cutover,
    /// After the cutover era: mint nothing, forever.
    Terminal,
}

/// The policy constants of one inflation schedule.
#[derive(Clone, Copy, Debug, PartialEq, Eq, Structural)]
pub struct InflationSchedule {
    /// Fractional growth bonus applied once to the base quantity.
    pub bonus_rate: Billionths,
    /// Sub-unity factor by which the payout decays every era.
    pub decay_rate: Billionths,
    /// Share of the maximum payout set aside for stakers.
    pub split_ratio: Hundredths,
    /// The era at which the growth phase ends with one final mint.
    pub cutover_era: u32,
    /// The hard supply ceiling that the cutover mint fills up to.
    pub final_supply_target: u128,
}

impl InflationSchedule {
    /// All three policy fractions lie in their representable ranges.
    pub open spec fn is_valid(self) -> bool {
        self.bonus_rate.is_valid() && self.decay_rate.is_valid() && self.split_ratio.is_valid()
    }

    /// The phase that `era_index` falls in.
    pub open spec fn spec_phase(self, era_index: u32) -> Phase {
        if era_index < self.cutover_era {
            Phase::Growth
        } else if era_index == self.cutover_era {
            Phase::Cutover
        } else {
            Phase::Terminal
        }
    }

    /// Picks the phase of `era_index`.
    pub fn phase(&self, era_index: u32) -> (p: Phase)
        ensures
            p == self.spec_phase(era_index),
    {
        if era_index < self.cutover_era {
            Phase::Growth
        } else if era_index == self.cutover_era {
            Phase::Cutover
        } else {
            Phase::Terminal
        }
    }

    /// The growth-phase formula on one base quantity: the base plus its
    /// one-time bonus, scaled by the era's decay factor, both rounded up.
    pub open spec fn spec_growth_payout(self, era_index: u32, base: u128) -> int {
        let boosted: int = sat_add_amount(
            base as int,
            billionths_mul_ceil(self.bonus_rate.parts as int, base as int),
        );
        billionths_mul_ceil(pow_parts(self.decay_rate.parts as int, era_index as nat), boosted)
    }

    /// The ceiling of newly minted currency for the era.
    pub open spec fn spec_maximum_payout(self, era_index: u32, total_issuance: u128) -> int {
        if era_index < self.cutover_era {
            self.spec_growth_payout(era_index, total_issuance)
        } else if era_index == self.cutover_era {
            sat_sub_amount(self.final_supply_target as int, total_issuance as int)
        } else {
            0
        }
    }

    /// The floor-rounded split of the era's maximum payout: the most the
    /// staker share may come to.
    pub open spec fn spec_staker_cap(self, era_index: u32, total_issuance: u128) -> int {
        hundredths_mul_floor(
            self.split_ratio.parts as int,
            self.spec_maximum_payout(era_index, total_issuance),
        )
    }

    /// The portion of the era's mint allocated to stakers.
    pub open spec fn spec_staker_payout(
        self,
        era_index: u32,
        total_tokens: u128,
        total_issuance: u128,
    ) -> int {
        if era_index < self.cutover_era {
            min_amount(
                self.spec_growth_payout(era_index, total_tokens),
                self.spec_staker_cap(era_index, total_issuance),
            )
        } else if era_index == self.cutover_era {
            self.spec_staker_cap(era_index, total_issuance)
        } else {
            0
        }
    }

    /// The growth-phase formula on one base quantity, with the era's decay
    /// factor already in hand.
    fn growth_payout(&self, decay_factor: Billionths, base: u128) -> (r: u128)
        requires
            self.bonus_rate.is_valid(),
            decay_factor.is_valid(),
        ensures
            r == billionths_mul_ceil(
                decay_factor.parts as int,
                sat_add_amount(
                    base as int,
                    billionths_mul_ceil(self.bonus_rate.parts as int, base as int),
                ),
            ),
    {
        let bonus: u128 = self.bonus_rate.mul_ceil(base);
        let boosted: u128 = base.saturating_add(bonus);
        decay_factor.mul_ceil(boosted)
    }

    /// Evaluates the schedule at one era.
    ///
    /// Returns `(staker_payout, maximum_payout)`; the first never exceeds the
    /// second. The function is total: it cannot fault for any input.
    pub fn compute_payout(&self, era_index: u32, total_tokens: u128, total_issuance: u128) -> (r:
        (u128, u128))
        requires
            self.is_valid(),
        ensures
            r.0 == self.spec_staker_payout(era_index, total_tokens, total_issuance),
            r.1 == self.spec_maximum_payout(era_index, total_issuance),
            r.0 <= r.1,
    {
        match self.phase(era_index) {
            Phase::Growth => {
                let decay_factor: Billionths = self.decay_rate.saturating_pow(era_index);
                let staker_payout: u128 = self.growth_payout(decay_factor, total_tokens);
                let maximum_payout: u128 = self.growth_payout(decay_factor, total_issuance);
                let staker_cap: u128 = self.split_ratio.mul_floor(maximum_payout);
                if staker_payout > staker_cap {
                    (staker_cap, maximum_payout)
                } else {
                    (staker_payout, maximum_payout)
                }
            },
            Phase::Cutover => {
                let maximum_payout: u128 = self.final_supply_target.saturating_sub(
                    total_issuance,
                );
                let staker_payout: u128 = self.split_ratio.mul_floor(maximum_payout);
                (staker_payout, maximum_payout)
            },
            Phase::Terminal => (0, 0),
        }
    }

    /// Evaluates the schedule variant that takes no issuance figure: both
    /// outputs follow the growth formula on `total_tokens` at every era, the
    /// staker share is the floor-rounded split of the maximum, and no
    /// cutover and no issuance-based cap apply.
    ///
    /// Returns `(staker_payout, maximum_payout)`; the first never exceeds
    /// the second. The function is total: it cannot fault for any input.
    pub fn compute_uncapped_payout(&self, era_index: u32, total_tokens: u128) -> (r: (u128, u128))
        requires
            self.is_valid(),
        ensures
            r.1 == self.spec_growth_payout(era_index, total_tokens),
            r.0 == hundredths_mul_floor(
                self.split_ratio.parts as int,
                self.spec_growth_payout(era_index, total_tokens),
            ),
            r.0 <= r.1,
    {
        let decay_factor: Billionths = self.decay_rate.saturating_pow(era_index);
        let maximum_payout: u128 = self.growth_payout(decay_factor, total_tokens);
        let staker_payout: u128 = self.split_ratio.mul_floor(maximum_payout);
        (staker_payout, maximum_payout)
    }
}

/// The schedule the policy constants of this crate describe.
pub open spec fn standard_schedule() -> InflationSchedule {
    InflationSchedule {
        bonus_rate: Billionths { parts: BONUS_RATE_NUMERATOR },
        decay_rate: Billionths { parts: DECAY_RATE_NUMERATOR },
        split_ratio: Hundredths { parts: 70 },
        cutover_era: CUTOVER_ERA,
        final_supply_target: FINAL_SUPPLY_TARGET,
    }
}

/// Builds the schedule of the crate's policy constants, validating each
/// fraction as it is constructed.
pub fn standard() -> (s: InflationSchedule)
    ensures
        s == standard_schedule(),
        s.is_valid(),
{
    proof {
        assert((233_278int * 1_000_000_000) / 1_000_000_000 == 233_278) by (nonlinear_arith);
        assert((999_950_000int * 1_000_000_000) / 1_000_000_000 == 999_950_000)
            by (nonlinear_arith);
        assert((7int * 100) / 10 == 70) by (nonlinear_arith);
    }
    InflationSchedule {
        bonus_rate: Billionths::from_rational(BONUS_RATE_NUMERATOR, RATE_DENOMINATOR),
        decay_rate: Billionths::from_rational(DECAY_RATE_NUMERATOR, RATE_DENOMINATOR),
        split_ratio: Hundredths::from_rational(SPLIT_RATIO_NUMERATOR, SPLIT_RATIO_DENOMINATOR),
        cutover_era: CUTOVER_ERA,
        final_supply_target: FINAL_SUPPLY_TARGET,
    }
}

/// The total payout to all validators (and their nominators) for one era,
/// and the era's maximum payout, under the standard schedule.
///
/// In the growth phase the pair follows
/// `maximum_payout = decay_rate ^ era_index * (1 + bonus_rate) * total_issuance`
/// with ceiling rounding at each scaling step, and
/// `staker_payout = min(the same formula on total_tokens,
/// floor(split_ratio * maximum_payout))`. The function is total: it cannot
/// fault for any input.
pub fn compute_total_payout(era_index: u32, total_tokens: u128, total_issuance: u128) -> (r: (
    u128,
    u128,
))
    ensures
        r.0 == standard_schedule().spec_staker_payout(era_index, total_tokens, total_issuance),
        r.1 == standard_schedule().spec_maximum_payout(era_index, total_issuance),
        r.0 <= r.1,
{
    let schedule: InflationSchedule = standard();
    schedule.compute_payout(era_index, total_tokens, total_issuance)
}

/// Monotonic decay: with the supply inputs fixed, the maximum payout of a
/// later growth-phase era never exceeds that of an earlier one.
pub proof fn lemma_monotonic_decay(
    s: InflationSchedule,
    era_a: u32,
    era_b: u32,
    total_issuance: u128,
)
    requires
        s.is_valid(),
        era_a < era_b,
        era_b < s.cutover_era,
    ensures
        s.spec_maximum_payout(era_b, total_issuance) <= s.spec_maximum_payout(
            era_a,
            total_issuance,
        ),
{
    let decay: int = s.decay_rate.parts as int;
    let boosted: int = sat_add_amount(
        total_issuance as int,
        billionths_mul_ceil(s.bonus_rate.parts as int, total_issuance as int),
    );
    lemma_mul_ceil_nonneg(s.bonus_rate.parts as int, total_issuance as int);
    lemma_pow_parts_bounds(decay, era_b as nat);
    lemma_pow_parts_nonincreasing(decay, era_a as nat, era_b as nat);
    lemma_mul_ceil_monotone_in_parts(
        pow_parts(decay, era_b as nat),
        pow_parts(decay, era_a as nat),
        boosted,
    );
}

/// Cap invariant: in the growth phase the staker payout never exceeds the
/// floor-rounded split of the maximum payout — exactly, never off by
/// rounding.
pub proof fn lemma_cap_invariant(
    s: InflationSchedule,
    era_index: u32,
    total_tokens: u128,
    total_issuance: u128,
)
    requires
        s.is_valid(),
        era_index < s.cutover_era,
    ensures
        s.spec_staker_payout(era_index, total_tokens, total_issuance) <= s.spec_staker_cap(
            era_index,
            total_issuance,
        ),
{
}

/// Terminal absorption: past the cutover era both outputs are exactly zero,
/// whatever the supply inputs.
pub proof fn lemma_terminal_absorption(
    s: InflationSchedule,
    era_index: u32,
    total_tokens: u128,
    total_issuance: u128,
)
    requires
        era_index > s.cutover_era,
    ensures
        s.spec_staker_payout(era_index, total_tokens, total_issuance) == 0,
        s.spec_maximum_payout(era_index, total_issuance) == 0,
{
}

/// Cutover exactness: at the cutover era the maximum payout is exactly the
/// final supply target less the total issuance, clamped to zero.
pub proof fn lemma_cutover_exactness(s: InflationSchedule, total_issuance: u128)
    ensures
        s.spec_maximum_payout(s.cutover_era, total_issuance) == sat_sub_amount(
            s.final_supply_target as int,
            total_issuance as int,
        ),
{
}

/// The staker payout never exceeds the maximum payout, in any phase.
pub proof fn lemma_staker_within_maximum(
    s: InflationSchedule,
    era_index: u32,
    total_tokens: u128,
    total_issuance: u128,
)
    requires
        s.is_valid(),
    ensures
        s.spec_staker_payout(era_index, total_tokens, total_issuance) <= s.spec_maximum_payout(
            era_index,
            total_issuance,
        ),
{
    let m: int = s.spec_maximum_payout(era_index, total_issuance);
    if era_index < s.cutover_era {
        lemma_mul_ceil_nonneg(s.bonus_rate.parts as int, total_issuance as int);
        lemma_pow_parts_bounds(s.decay_rate.parts as int, era_index as nat);
        lemma_mul_ceil_nonneg(
            pow_parts(s.decay_rate.parts as int, era_index as nat),
            sat_add_amount(
                total_issuance as int,
                billionths_mul_ceil(s.bonus_rate.parts as int, total_issuance as int),
            ),
        );
        lemma_mul_floor_bounds(s.split_ratio.parts as int, m);
    } else if era_index == s.cutover_era {
        lemma_mul_floor_bounds(s.split_ratio.parts as int, m);
    }
}

} // verus!

