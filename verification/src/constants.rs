//! The fixed numbers of the vesting rules.

use vstd::prelude::*;

verus! {

/// Length of one vesting month in seconds (30.44 days).
pub const SECONDS_PER_MONTH: i64 = 2_629_776;

/// How long after the end of vesting the administrator must wait before
/// reclaiming what was not claimed: six months, in seconds.
pub const GRACE_PERIOD: i64 = 15_778_656;

/// How far in the future a vesting start may lie at creation: one year of
/// 365 days, in seconds.
pub const MAX_START_DELAY: i64 = 31_536_000;

/// Largest number of beneficiaries in one schedule.
pub const MAX_BENEFICIARIES: usize = 50;

/// Largest number of decimals of the vested asset.
pub const MAX_DECIMALS: u8 = 9;

/// Longest cliff in months.
pub const MAX_CLIFF_MONTHS: u8 = 48;

/// The grace period is six vesting months.
pub proof fn lemma_grace_is_six_months()
    ensures
        GRACE_PERIOD == 6 * SECONDS_PER_MONTH,
{
}

} // verus!
