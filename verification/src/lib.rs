//! Era-indexed inflation payout calculator for a proof-of-stake ledger.
//!
//! Once per era, [`schedule::compute_total_payout`] turns an era index and two
//! supply quantities into the pair `(staker_payout, maximum_payout)`: how much
//! new currency may be minted for the era, and how much of it is set aside for
//! validator rewards. The computation is a total function: every arithmetic
//! step either is proved free of overflow or saturates, so no input can make
//! it fault.
//!
//! The numeric groundwork lives in [`fraction`]: exact fixed-point fractions
//! at billionths and hundredths precision, with ceiling and floor scaling and
//! a saturating decay power. The schedule itself, its three phases and the
//! policy constants live in [`schedule`].

pub mod fraction;
pub mod schedule;
