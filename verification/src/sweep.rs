//! Recovery of what beneficiaries left unclaimed after their grace period.

use vstd::prelude::*;
use crate::account::claims_advance;
use crate::beneficiary::Beneficiary;
use crate::validator::{lemma_total_allocated_nonnegative, total_allocated};

verus! {

/// What a sweep at `now` takes from one beneficiary, in raw units.
pub open spec fn swept_from(b: Beneficiary, now: int) -> int {
    if b.sweepable(now) {
        b.unclaimed()
    } else {
        0
    }
}

/// What a sweep at `now` takes in all, in raw units.
pub open spec fn swept_total(s: Seq<Beneficiary>, now: int) -> int
    decreases s.len(),
{
    if s.len() == 0 {
        0
    } else {
        swept_total(s.drop_last(), now) + swept_from(s.last(), now)
    }
}

/// From how many beneficiaries a sweep at `now` takes anything.
pub open spec fn swept_count(s: Seq<Beneficiary>, now: int) -> int
    decreases s.len(),
{
    if s.len() == 0 {
        0
    } else {
        swept_count(s.drop_last(), now) + if s.last().sweepable(now) {
            1int
        } else {
            0int
        }
    }
}

/// The beneficiaries after a sweep at `now`.
pub open spec fn sweep_all(s: Seq<Beneficiary>, now: int) -> Seq<Beneficiary> {
    Seq::new(s.len(), |i: int| s[i].swept(now))
}

/// A sweep of a prefix takes no more, and from no more beneficiaries, than a
/// sweep of the whole; and it takes from no more beneficiaries than there are.
pub proof fn lemma_swept_prefix(s: Seq<Beneficiary>, now: int, n: int)
    requires
        0 <= n <= s.len(),
    ensures
        0 <= swept_total(s.take(n), now) <= swept_total(s, now),
        0 <= swept_count(s.take(n), now) <= swept_count(s, now),
        swept_count(s.take(n), now) <= n,
    decreases s.len() - n,
{
    if n == s.len() {
        assert(s.take(n) =~= s);
        lemma_swept_bounds(s, now);
    } else {
        lemma_swept_prefix(s, now, n + 1);
        assert(s.take(n + 1).drop_last() =~= s.take(n));
        lemma_swept_bounds(s.take(n), now);
    }
}

/// A sweep takes nothing negative, from at most every beneficiary, and takes
/// something exactly when it takes from somebody.
pub proof fn lemma_swept_bounds(s: Seq<Beneficiary>, now: int)
    ensures
        0 <= swept_total(s, now),
        0 <= swept_count(s, now) <= s.len(),
        swept_total(s, now) > 0 <==> swept_count(s, now) > 0,
    decreases s.len(),
{
    if s.len() > 0 {
        lemma_swept_bounds(s.drop_last(), now);
    }
}

/// A sweep takes no more than was allocated in all.
pub proof fn lemma_swept_within_allocated(s: Seq<Beneficiary>, now: int)
    ensures
        swept_total(s, now) <= total_allocated(s),
    decreases s.len(),
{
    if s.len() > 0 {
        lemma_swept_within_allocated(s.drop_last(), now);
    } else {
        lemma_total_allocated_nonnegative(s);
    }
}

/// A sweep touches only beneficiaries whose grace period has run out: every
/// other keeps what they had, and those it takes from end fully claimed.
pub proof fn lemma_sweep_only_after_grace(s: Seq<Beneficiary>, now: int)
    ensures
        sweep_all(s, now).len() == s.len(),
        forall|i: int|
            0 <= i < s.len() && !(#[trigger] s[i]).grace_elapsed(now) ==> sweep_all(s, now)[i]
                == s[i],
        forall|i: int|
            0 <= i < s.len() && sweep_all(s, now)[i] != (#[trigger] s[i]) ==> {
                &&& now > s[i].start_time + s[i].total_months * crate::constants::SECONDS_PER_MONTH
                    + 6 * crate::constants::SECONDS_PER_MONTH
                &&& sweep_all(s, now)[i].claimed_tokens == s[i].allocated_tokens
                &&& s[i].claimed_tokens < s[i].allocated_tokens
            },
        claims_advance(s, sweep_all(s, now)),
{
}

/// After a sweep, a second sweep at the same instant finds nothing.
pub proof fn lemma_sweep_leaves_nothing(s: Seq<Beneficiary>, now: int)
    ensures
        swept_total(sweep_all(s, now), now) == 0,
    decreases s.len(),
{
    if s.len() > 0 {
        lemma_sweep_leaves_nothing(s.drop_last(), now);
        assert(sweep_all(s, now).drop_last() =~= sweep_all(s.drop_last(), now));
    }
}

/// What a sweep at `now` would take and from how many beneficiaries, or
/// `None` if the amount does not fit in 64 bits or the count in 32.
pub fn sweep_totals(beneficiaries: &Vec<Beneficiary>, now: i64) -> (r: Option<(u64, u32)>)
    ensures
        match r {
            Some((total, count)) => total == swept_total(beneficiaries@, now as int) && count
                == swept_count(beneficiaries@, now as int),
            None => swept_total(beneficiaries@, now as int) > u64::MAX || swept_count(
                beneficiaries@,
                now as int,
            ) > u32::MAX,
        },
{
    let n: usize = beneficiaries.len();
    let mut total: u64 = 0;
    let mut count: u32 = 0;
    let mut i: usize = 0;
    while i < n
        invariant
            i <= n,
            n == beneficiaries@.len(),
            total == swept_total(beneficiaries@.take(i as int), now as int),
            count == swept_count(beneficiaries@.take(i as int), now as int),
        decreases n - i,
    {
        proof {
            assert(beneficiaries@.take(i + 1).drop_last() =~= beneficiaries@.take(i as int));
            lemma_swept_prefix(beneficiaries@, now as int, i + 1);
        }
        if beneficiaries[i].sweepable_at(now) {
            match total.checked_add(beneficiaries[i].unclaimed_tokens()) {
                Some(sum) => {
                    total = sum;
                },
                None => {
                    return None;
                },
            }
            match count.checked_add(1) {
                Some(next) => {
                    count = next;
                },
                None => {
                    return None;
                },
            }
        }
        i += 1;
    }
    proof {
        assert(beneficiaries@.take(n as int) =~= beneficiaries@);
    }
    Some((total, count))
}

/// Sweeps at `now`: every beneficiary whose grace period has run out and who
/// has something unclaimed ends fully claimed; nobody else changes.
pub fn apply_sweep(beneficiaries: &mut Vec<Beneficiary>, now: i64)
    ensures
        final(beneficiaries)@ == sweep_all(old(beneficiaries)@, now as int),
{
    let ghost before = beneficiaries@;
    let n: usize = beneficiaries.len();
    let mut i: usize = 0;
    while i < n
        invariant
            i <= n,
            n == beneficiaries@.len(),
            n == before.len(),
            forall|k: int| 0 <= k < i ==> beneficiaries@[k] == (#[trigger] before[k]).swept(now as int),
            forall|k: int| i <= k < n ==> beneficiaries@[k] == #[trigger] before[k],
        decreases n - i,
    {
        let b: Beneficiary = beneficiaries[i];
        if b.sweepable_at(now) {
            beneficiaries[i].claimed_tokens = b.allocated_tokens;
        }
        i += 1;
    }
    assert(beneficiaries@ =~= sweep_all(before, now as int));
}

} // verus!
