//! One beneficiary's terms, and what they unlock at a given instant.

use vstd::prelude::*;
use crate::constants::{GRACE_PERIOD, MAX_CLIFF_MONTHS, MAX_START_DELAY, SECONDS_PER_MONTH};
use crate::error::VestingError;
use crate::identity::Identity;

verus! {

/// One beneficiary of a schedule. Amounts are in raw units of the asset,
/// times in seconds, durations in vesting months.
#[derive(Clone, Copy, Debug, PartialEq, Eq)]
pub struct Beneficiary {
    pub key: Identity,
    pub allocated_tokens: u64,
    pub claimed_tokens: u64,
    pub start_time: i64,
    pub cliff_months: u8,
    pub total_months: u8,
}

impl Beneficiary {
    /// The standing invariant of a beneficiary's terms: a cliff of at most 48
    /// months that is shorter than, and divides, the whole duration; a
    /// positive allocation; and no more claimed than allocated.
    pub open spec fn wf(&self) -> bool {
        &&& self.cliff_months <= MAX_CLIFF_MONTHS
        &&& self.cliff_months < self.total_months
        &&& (self.cliff_months > 0 ==> self.total_months % self.cliff_months == 0)
        &&& self.allocated_tokens > 0
        &&& self.claimed_tokens <= self.allocated_tokens
    }

    /// Whole vesting months between the start and `now`; zero before the start.
    pub open spec fn months_elapsed(&self, now: int) -> int {
        if now >= self.start_time {
            (now - self.start_time) / (SECONDS_PER_MONTH as int)
        } else {
            0
        }
    }

    /// Months after the cliff over which the allocation unlocks.
    pub open spec fn vesting_span(&self) -> int {
        self.total_months - self.cliff_months
    }

    /// Months of the vesting span that have passed at `now`, once the cliff
    /// is behind.
    pub open spec fn months_vested(&self, now: int) -> int {
        let past_cliff = self.months_elapsed(now) - self.cliff_months;
        if past_cliff <= self.vesting_span() {
            past_cliff
        } else {
            self.vesting_span()
        }
    }

    /// Raw units unlocked at `now`: the allocation in proportion to the
    /// months vested, rounded down, and all of it once the span has passed.
    pub open spec fn unlocked(&self, now: int) -> int {
        if self.months_vested(now) >= self.vesting_span() {
            self.allocated_tokens as int
        } else {
            (self.allocated_tokens * self.months_vested(now)) / self.vesting_span()
        }
    }

    /// Raw units unlocked at `now` and not yet claimed.
    pub open spec fn claimable(&self, now: int) -> int {
        if self.unlocked(now) > self.claimed_tokens {
            self.unlocked(now) - self.claimed_tokens
        } else {
            0
        }
    }

    /// What a claim at `now` yields: the newly claimable amount, or the
    /// reason there is none.
    pub open spec fn claim_outcome(&self, now: int) -> Result<u64, VestingError> {
        if self.vesting_span() <= 0 {
            Err(VestingError::InvalidVestingConfig)
        } else if self.months_elapsed(now) < self.cliff_months {
            Err(VestingError::CliffNotReached)
        } else if self.claimable(now) == 0 {
            Err(VestingError::ClaimNotAllowed)
        } else {
            Ok(self.claimable(now) as u64)
        }
    }

    /// The first rule of creation that these terms break at `now`, if any.
    pub open spec fn terms_error(&self, now: int) -> Option<VestingError> {
        if self.total_months < 1 {
            Some(VestingError::InvalidVestingPeriod)
        } else if self.cliff_months > MAX_CLIFF_MONTHS {
            Some(VestingError::CliffTooLong)
        } else if self.cliff_months >= self.total_months {
            Some(VestingError::InvalidCliffPeriod)
        } else if self.allocated_tokens == 0 {
            Some(VestingError::InvalidAllocation)
        } else if self.start_time < now {
            Some(VestingError::InvalidStartTime)
        } else if self.start_time > now + MAX_START_DELAY {
            Some(VestingError::StartTimeTooFar)
        } else if self.cliff_months > 0 && self.total_months % self.cliff_months != 0 {
            Some(VestingError::InvalidVestingConfig)
        } else {
            None
        }
    }

    /// The instant after which what was not claimed may be swept: the end of
    /// vesting plus the grace period.
    pub open spec fn earliest_withdraw(&self) -> int {
        self.start_time + self.total_months * SECONDS_PER_MONTH + GRACE_PERIOD
    }

    /// Whether the grace period has run out at `now`.
    pub open spec fn grace_elapsed(&self, now: int) -> bool {
        now > self.earliest_withdraw()
    }

    /// Raw units allocated and not claimed.
    pub open spec fn unclaimed(&self) -> int {
        if self.allocated_tokens > self.claimed_tokens {
            self.allocated_tokens - self.claimed_tokens
        } else {
            0
        }
    }

    /// Whether a sweep at `now` takes anything from this beneficiary.
    pub open spec fn sweepable(&self, now: int) -> bool {
        self.grace_elapsed(now) && self.unclaimed() > 0
    }

    /// The beneficiary after a sweep at `now`: fully claimed if the sweep
    /// takes anything, untouched otherwise.
    pub open spec fn swept(&self, now: int) -> Beneficiary {
        if self.sweepable(now) {
            Beneficiary { claimed_tokens: self.allocated_tokens, ..*self }
        } else {
            *self
        }
    }

    /// The beneficiary with `amount` more claimed.
    pub open spec fn credited(&self, amount: u64) -> Beneficiary {
        Beneficiary { claimed_tokens: (self.claimed_tokens + amount) as u64, ..*self }
    }

    /// Whole vesting months between the start and `now`.
    pub fn months_elapsed_at(&self, now: i64) -> (r: u64)
        ensures
            r == self.months_elapsed(now as int),
    {
        if now >= self.start_time {
            let diff: i128 = now as i128 - self.start_time as i128;
            let months: u128 = (diff as u128) / (SECONDS_PER_MONTH as u128);
            months as u64
        } else {
            0
        }
    }

    /// Raw units unlocked at `now`, for terms whose cliff has been reached.
    pub fn unlocked_at(&self, now: i64) -> (r: u64)
        requires
            self.vesting_span() > 0,
            self.months_elapsed(now as int) >= self.cliff_months,
        ensures
            r == self.unlocked(now as int),
            r <= self.allocated_tokens,
    {
        let span: u64 = (self.total_months - self.cliff_months) as u64;
        let past_cliff: u64 = self.months_elapsed_at(now) - self.cliff_months as u64;
        if past_cliff >= span {
            self.allocated_tokens
        } else {
            let allocated: u128 = self.allocated_tokens as u128;
            let vested: u128 = past_cliff as u128;
            assert(allocated * vested <= allocated * 255) by (nonlinear_arith)
                requires
                    0 <= vested <= 255,
                    0 <= allocated,
            ;
            let product: u128 = allocated * vested;
            assert(product / (span as u128) <= allocated) by (nonlinear_arith)
                requires
                    product == allocated * vested,
                    0 <= vested < span,
                    0 <= allocated,
            ;
            (product / (span as u128)) as u64
        }
    }

    /// The claim calculator: what the beneficiary may newly withdraw at
    /// `now`, or why nothing.
    pub fn claimable_at(&self, now: i64) -> (r: Result<u64, VestingError>)
        ensures
            r == self.claim_outcome(now as int),
            r matches Ok(amount) ==> 0 < amount && self.claimed_tokens + amount
                <= self.allocated_tokens,
    {
        if self.total_months <= self.cliff_months {
            return Err(VestingError::InvalidVestingConfig);
        }
        if self.months_elapsed_at(now) < self.cliff_months as u64 {
            return Err(VestingError::CliffNotReached);
        }
        let unlocked: u64 = self.unlocked_at(now);
        if unlocked <= self.claimed_tokens {
            return Err(VestingError::ClaimNotAllowed);
        }
        Ok(unlocked - self.claimed_tokens)
    }

    /// Checks the terms against the rules of creation, in their order.
    pub fn check_terms(&self, now: i64) -> (r: Result<(), VestingError>)
        ensures
            match self.terms_error(now as int) {
                Some(e) => r == Err::<(), VestingError>(e),
                None => r is Ok,
            },
    {
        if self.total_months < 1 {
            return Err(VestingError::InvalidVestingPeriod);
        }
        if self.cliff_months > MAX_CLIFF_MONTHS {
            return Err(VestingError::CliffTooLong);
        }
        if self.cliff_months >= self.total_months {
            return Err(VestingError::InvalidCliffPeriod);
        }
        if self.allocated_tokens == 0 {
            return Err(VestingError::InvalidAllocation);
        }
        if self.start_time < now {
            return Err(VestingError::InvalidStartTime);
        }
        if self.start_time as i128 > now as i128 + MAX_START_DELAY as i128 {
            return Err(VestingError::StartTimeTooFar);
        }
        if self.cliff_months > 0 && self.total_months % self.cliff_months != 0 {
            return Err(VestingError::InvalidVestingConfig);
        }
        Ok(())
    }

    /// Whether the grace period has run out at `now`.
    pub fn grace_elapsed_at(&self, now: i64) -> (r: bool)
        ensures
            r == self.grace_elapsed(now as int),
    {
        let month: i128 = SECONDS_PER_MONTH as i128;
        let vesting_end: i128 = self.start_time as i128 + self.total_months as i128 * month;
        now as i128 > vesting_end + GRACE_PERIOD as i128
    }

    /// Raw units allocated and not claimed.
    pub fn unclaimed_tokens(&self) -> (r: u64)
        ensures
            r == self.unclaimed(),
    {
        if self.allocated_tokens > self.claimed_tokens {
            self.allocated_tokens - self.claimed_tokens
        } else {
            0
        }
    }

    /// Whether a sweep at `now` takes anything from this beneficiary.
    pub fn sweepable_at(&self, now: i64) -> (r: bool)
        ensures
            r == self.sweepable(now as int),
    {
        self.grace_elapsed_at(now) && self.unclaimed_tokens() > 0
    }
}

impl Default for Beneficiary {
    fn default() -> (r: Beneficiary)
        ensures
            r.key.is_null_spec(),
            r.allocated_tokens == 0,
            r.claimed_tokens == 0,
            r.start_time == 0,
            r.cliff_months == 0,
            r.total_months == 0,
    {
        Beneficiary {
            key: Identity::null(),
            allocated_tokens: 0,
            claimed_tokens: 0,
            start_time: 0,
            cliff_months: 0,
            total_months: 0,
        }
    }
}

/// Before the cliff a claim fails with `CliffNotReached`: for terms with a
/// cliff and a positive vesting span, at every instant earlier than the
/// start plus the cliff months.
pub proof fn lemma_claim_before_cliff_fails(b: Beneficiary, now: int)
    requires
        b.vesting_span() > 0,
        b.cliff_months > 0,
        now < b.start_time + b.cliff_months * SECONDS_PER_MONTH,
    ensures
        b.claim_outcome(now) == Err::<u64, VestingError>(VestingError::CliffNotReached),
{
    if now >= b.start_time {
        let d = now - b.start_time;
        let c = b.cliff_months as int;
        assert(d / 2_629_776 < c) by (nonlinear_arith)
            requires
                0 <= d < c * 2_629_776,
        ;
    }
}

/// From the cliff on a claim no longer fails with `CliffNotReached`.
pub proof fn lemma_claim_from_cliff_on(b: Beneficiary, now: int)
    requires
        b.vesting_span() > 0,
        now >= b.start_time + b.cliff_months * SECONDS_PER_MONTH,
    ensures
        b.months_elapsed(now) >= b.cliff_months,
        b.claim_outcome(now) != Err::<u64, VestingError>(VestingError::CliffNotReached),
{
    let d = now - b.start_time;
    let c = b.cliff_months as int;
    assert(d / 2_629_776 >= c) by (nonlinear_arith)
        requires
            d >= c * 2_629_776,
            c >= 0,
    ;
}

/// At full vesting everything is unlocked, with no rounding loss: when the
/// months vested equal the vesting span, the unlocked amount is the
/// allocation, and so is what the proportional formula gives.
pub proof fn lemma_full_vesting_unlocks_all(b: Beneficiary, now: int)
    requires
        b.vesting_span() > 0,
        b.months_vested(now) == b.vesting_span(),
    ensures
        b.unlocked(now) == b.allocated_tokens,
        (b.allocated_tokens * b.months_vested(now)) / b.vesting_span() == b.allocated_tokens,
{
    let a = b.allocated_tokens as int;
    let n = b.vesting_span();
    assert((a * n) / n == a) by (nonlinear_arith)
        requires
            n > 0,
    ;
}

/// What is unlocked never exceeds the allocation and never shrinks as time
/// passes.
pub proof fn lemma_unlocked_bounded_and_monotone(b: Beneficiary, earlier: int, later: int)
    requires
        b.vesting_span() > 0,
        earlier <= later,
        b.months_elapsed(earlier) >= b.cliff_months,
    ensures
        0 <= b.unlocked(earlier) <= b.unlocked(later) <= b.allocated_tokens,
{
    let a = b.allocated_tokens as int;
    let n = b.vesting_span();
    let m1 = b.months_vested(earlier);
    let m2 = b.months_vested(later);
    if earlier >= b.start_time {
        let d1 = earlier - b.start_time;
        let d2 = later - b.start_time;
        assert(d1 / 2_629_776 <= d2 / 2_629_776) by (nonlinear_arith)
            requires
                0 <= d1 <= d2,
        ;
    }
    assert(0 <= m1 <= m2 <= n);
    assert(0 <= (a * m1) / n <= (a * m2) / n <= a) by (nonlinear_arith)
        requires
            0 <= m1 <= m2 <= n,
            n > 0,
            a >= 0,
    ;
}

/// A successful claim is positive and brings what is claimed to exactly
/// what is unlocked, which is never more than the allocation.
pub proof fn lemma_claim_within_allocation(b: Beneficiary, now: int)
    requires
        b.claim_outcome(now) is Ok,
    ensures
        b.claim_outcome(now)->Ok_0 > 0,
        b.claimed_tokens + b.claim_outcome(now)->Ok_0 == b.unlocked(now),
        b.unlocked(now) <= b.allocated_tokens,
{
    lemma_unlocked_bounded_and_monotone(b, now, now);
}

/// The grace period ends no earlier than six months after the cliff: with a
/// cliff shorter than the whole duration, the end of vesting is the later
/// bound.
pub proof fn lemma_withdraw_after_cliff_grace(b: Beneficiary)
    requires
        b.cliff_months < b.total_months,
    ensures
        b.earliest_withdraw() > b.start_time + b.cliff_months * SECONDS_PER_MONTH + GRACE_PERIOD,
{
}

} // verus!
