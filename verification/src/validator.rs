//! The rules a proposed schedule must meet before it is created.

use vstd::prelude::*;
use crate::beneficiary::Beneficiary;
use crate::constants::{MAX_BENEFICIARIES, MAX_DECIMALS};
use crate::error::VestingError;

verus! {

/// The sum of all allocations, in raw units.
pub open spec fn total_allocated(s: Seq<Beneficiary>) -> int
    decreases s.len(),
{
    if s.len() == 0 {
        0
    } else {
        total_allocated(s.drop_last()) + s.last().allocated_tokens
    }
}

/// No two beneficiaries share an identity.
pub open spec fn keys_distinct(s: Seq<Beneficiary>) -> bool {
    forall|i: int, j: int| 0 <= i < j < s.len() ==> s[i].key != s[j].key
}

/// Every beneficiary's terms meet the rules of creation at `now`.
pub open spec fn all_terms_ok(s: Seq<Beneficiary>, now: int) -> bool {
    forall|i: int| 0 <= i < s.len() ==> (#[trigger] s[i]).terms_error(now) is None
}

/// `i` is the first beneficiary whose terms break a rule of creation.
pub open spec fn is_first_bad_terms(s: Seq<Beneficiary>, now: int, i: int) -> bool {
    &&& 0 <= i < s.len()
    &&& s[i].terms_error(now) is Some
    &&& forall|j: int| 0 <= j < i ==> (#[trigger] s[j]).terms_error(now) is None
}

/// The first rule broken by the terms of any beneficiary, going through the
/// beneficiaries in order and through the rules in order for each.
pub open spec fn first_terms_error(s: Seq<Beneficiary>, now: int) -> Option<VestingError> {
    if all_terms_ok(s, now) {
        None
    } else {
        s[choose|i: int| is_first_bad_terms(s, now, i)].terms_error(now)
    }
}

/// The list as it is stored at creation: the proposed terms, with nothing
/// claimed yet, whatever the proposal says of it.
pub open spec fn nothing_claimed(s: Seq<Beneficiary>) -> Seq<Beneficiary> {
    Seq::new(s.len(), |i: int| Beneficiary { claimed_tokens: 0, ..s[i] })
}

/// The first rule of creation that a proposed schedule breaks, if any. The
/// rules, in order: the list is not empty and has at most 50 entries; the
/// total amount is positive and the decimals at most 9; each beneficiary's
/// terms are in order; identities are pairwise distinct; the allocations sum
/// up without overflow to at most the total amount.
pub open spec fn schedule_error(
    s: Seq<Beneficiary>,
    total_amount: u64,
    decimals: u8,
    now: int,
) -> Option<VestingError> {
    if s.len() == 0 {
        Some(VestingError::NoBeneficiaries)
    } else if s.len() > MAX_BENEFICIARIES {
        Some(VestingError::TooManyBeneficiaries)
    } else if total_amount == 0 {
        Some(VestingError::InvalidAmount)
    } else if decimals > MAX_DECIMALS {
        Some(VestingError::InvalidDecimals)
    } else if first_terms_error(s, now) is Some {
        first_terms_error(s, now)
    } else if !keys_distinct(s) {
        Some(VestingError::DuplicateBeneficiary)
    } else if total_allocated(s) > u64::MAX {
        Some(VestingError::MathOverflow)
    } else if total_allocated(s) > total_amount {
        Some(VestingError::OverAllocation)
    } else {
        None
    }
}

/// The verdict on a proposed schedule: accepted, or the first rule broken.
pub open spec fn schedule_check(
    s: Seq<Beneficiary>,
    total_amount: u64,
    decimals: u8,
    now: int,
) -> Result<(), VestingError> {
    match schedule_error(s, total_amount, decimals, now) {
        Some(e) => Err(e),
        None => Ok(()),
    }
}

/// Lists that allocate the same to each place allocate the same in all.
pub proof fn lemma_total_allocated_same(a: Seq<Beneficiary>, b: Seq<Beneficiary>)
    requires
        a.len() == b.len(),
        forall|i: int| 0 <= i < a.len() ==> (#[trigger] a[i]).allocated_tokens == b[i].allocated_tokens,
    ensures
        total_allocated(a) == total_allocated(b),
    decreases a.len(),
{
    if a.len() > 0 {
        lemma_total_allocated_same(a.drop_last(), b.drop_last());
    }
}

/// The sum of a prefix is at most the sum of the whole.
pub proof fn lemma_total_allocated_prefix(s: Seq<Beneficiary>, n: int)
    requires
        0 <= n <= s.len(),
    ensures
        0 <= total_allocated(s.take(n)) <= total_allocated(s),
    decreases s.len() - n,
{
    if n == s.len() {
        assert(s.take(n) =~= s);
        lemma_total_allocated_nonnegative(s);
    } else {
        lemma_total_allocated_prefix(s, n + 1);
        assert(s.take(n + 1).drop_last() =~= s.take(n));
        lemma_total_allocated_nonnegative(s.take(n));
    }
}

/// A sum of allocations is never negative.
pub proof fn lemma_total_allocated_nonnegative(s: Seq<Beneficiary>)
    ensures
        total_allocated(s) >= 0,
    decreases s.len(),
{
    if s.len() > 0 {
        lemma_total_allocated_nonnegative(s.drop_last());
    }
}

/// An accepted schedule allocates no more than its total amount, and one
/// that allocates more is always refused.
pub proof fn lemma_accepted_within_total(
    s: Seq<Beneficiary>,
    total_amount: u64,
    decimals: u8,
    now: int,
)
    ensures
        schedule_check(s, total_amount, decimals, now) is Ok ==> total_allocated(s)
            <= total_amount,
        total_allocated(s) > total_amount ==> schedule_check(s, total_amount, decimals, now)
            is Err,
{
}

/// An accepted schedule, stored with nothing claimed, meets every standing
/// invariant of a beneficiary list: between 1 and 50 beneficiaries with
/// distinct identities, each with terms in order and no more claimed than
/// allocated, and allocations that sum to no more than the total amount.
pub proof fn lemma_accepted_is_well_formed(
    s: Seq<Beneficiary>,
    total_amount: u64,
    decimals: u8,
    now: int,
)
    requires
        schedule_check(s, total_amount, decimals, now) is Ok,
    ensures
        1 <= nothing_claimed(s).len() <= MAX_BENEFICIARIES,
        total_amount > 0,
        decimals <= MAX_DECIMALS,
        keys_distinct(nothing_claimed(s)),
        total_allocated(nothing_claimed(s)) <= total_amount,
        forall|i: int| 0 <= i < s.len() ==> (#[trigger] nothing_claimed(s)[i]).wf(),
        forall|i: int|
            0 <= i < s.len() ==> now <= (#[trigger] s[i]).start_time <= now
                + crate::constants::MAX_START_DELAY,
{
    assert(first_terms_error(s, now) is None);
    if !all_terms_ok(s, now) {
        let k = choose|k: int| 0 <= k < s.len() && !((#[trigger] s[k]).terms_error(now) is None);
        lemma_first_bad_exists(s, now, k);
    }
    assert(all_terms_ok(s, now));
    lemma_total_allocated_same(s, nothing_claimed(s));
    assert forall|i: int| 0 <= i < s.len() implies (#[trigger] nothing_claimed(s)[i]).wf() by {
        assert(s[i].terms_error(now) is None);
    }
    assert forall|i: int, j: int| 0 <= i < j < s.len() implies nothing_claimed(s)[i].key
        != nothing_claimed(s)[j].key by {
        assert(s[i].key != s[j].key);
    }
}

/// If some beneficiary's terms break a rule, one is the first to do so.
pub proof fn lemma_first_bad_exists(s: Seq<Beneficiary>, now: int, k: int)
    requires
        0 <= k < s.len(),
        s[k].terms_error(now) is Some,
    ensures
        exists|i: int| is_first_bad_terms(s, now, i),
        is_first_bad_terms(s, now, choose|i: int| is_first_bad_terms(s, now, i)),
        first_terms_error(s, now) is Some,
    decreases k,
{
    if forall|j: int| 0 <= j < k ==> (#[trigger] s[j]).terms_error(now) is None {
        assert(is_first_bad_terms(s, now, k));
    } else {
        let j = choose|j: int| 0 <= j < k && !((#[trigger] s[j]).terms_error(now) is None);
        lemma_first_bad_exists(s, now, j);
    }
}

/// The first rule broken by the terms of any beneficiary.
pub fn first_terms_violation(beneficiaries: &Vec<Beneficiary>, now: i64) -> (r: Option<
    VestingError,
>)
    ensures
        r == first_terms_error(beneficiaries@, now as int),
{
    let n: usize = beneficiaries.len();
    let mut i: usize = 0;
    while i < n
        invariant
            i <= n,
            n == beneficiaries@.len(),
            forall|j: int| 0 <= j < i ==> (#[trigger] beneficiaries@[j]).terms_error(now as int) is None,
        decreases n - i,
    {
        match beneficiaries[i].check_terms(now) {
            Err(e) => {
                proof {
                    let s = beneficiaries@;
                    assert(is_first_bad_terms(s, now as int, i as int));
                    let c = choose|c: int| is_first_bad_terms(s, now as int, c);
                    assert(is_first_bad_terms(s, now as int, c));
                    assert(c == i);
                }
                return Some(e);
            },
            Ok(_) => {},
        }
        i += 1;
    }
    None
}

/// Whether two beneficiaries share an identity.
pub fn has_duplicate_key(beneficiaries: &Vec<Beneficiary>) -> (r: bool)
    ensures
        r == !keys_distinct(beneficiaries@),
{
    let n: usize = beneficiaries.len();
    let mut i: usize = 0;
    while i < n
        invariant
            i <= n,
            n == beneficiaries@.len(),
            forall|a: int, b: int| 0 <= a < b < i ==> beneficiaries@[a].key != beneficiaries@[b].key,
        decreases n - i,
    {
        let mut j: usize = 0;
        while j < i
            invariant
                j <= i,
                i < n,
                n == beneficiaries@.len(),
                forall|a: int| 0 <= a < j ==> beneficiaries@[a].key != beneficiaries@[i as int].key,
            decreases i - j,
        {
            if beneficiaries[j].key == beneficiaries[i].key {
                return true;
            }
            j += 1;
        }
        i += 1;
    }
    false
}

/// The sum of all allocations, or `None` if it does not fit in 64 bits.
pub fn checked_total_allocated(beneficiaries: &Vec<Beneficiary>) -> (r: Option<u64>)
    ensures
        match r {
            Some(total) => total == total_allocated(beneficiaries@),
            None => total_allocated(beneficiaries@) > u64::MAX,
        },
{
    let n: usize = beneficiaries.len();
    let mut total: u64 = 0;
    let mut i: usize = 0;
    while i < n
        invariant
            i <= n,
            n == beneficiaries@.len(),
            total == total_allocated(beneficiaries@.take(i as int)),
        decreases n - i,
    {
        proof {
            assert(beneficiaries@.take(i + 1).drop_last() =~= beneficiaries@.take(i as int));
            lemma_total_allocated_prefix(beneficiaries@, i + 1);
        }
        match total.checked_add(beneficiaries[i].allocated_tokens) {
            Some(sum) => {
                total = sum;
            },
            None => {
                return None;
            },
        }
        i += 1;
    }
    proof {
        assert(beneficiaries@.take(n as int) =~= beneficiaries@);
    }
    Some(total)
}

/// Sets what every beneficiary has claimed to nothing, and changes nothing
/// else.
pub fn clear_claimed(beneficiaries: &mut Vec<Beneficiary>)
    ensures
        final(beneficiaries)@ == nothing_claimed(old(beneficiaries)@),
{
    let ghost before = beneficiaries@;
    let n: usize = beneficiaries.len();
    let mut i: usize = 0;
    while i < n
        invariant
            i <= n,
            n == beneficiaries@.len(),
            n == before.len(),
            forall|k: int|
                0 <= k < i ==> beneficiaries@[k] == (Beneficiary {
                    claimed_tokens: 0,
                    ..#[trigger] before[k]
                }),
            forall|k: int| i <= k < n ==> beneficiaries@[k] == #[trigger] before[k],
        decreases n - i,
    {
        beneficiaries[i].claimed_tokens = 0;
        i += 1;
    }
    assert(beneficiaries@ =~= nothing_claimed(before));
}

/// The schedule validator: accepts a proposed schedule or names the first
/// rule it breaks. It changes nothing.
pub fn validate_schedule(
    beneficiaries: &Vec<Beneficiary>,
    total_amount: u64,
    decimals: u8,
    now: i64,
) -> (r: Result<(), VestingError>)
    ensures
        r == schedule_check(beneficiaries@, total_amount, decimals, now as int),
{
    if beneficiaries.len() == 0 {
        return Err(VestingError::NoBeneficiaries);
    }
    if beneficiaries.len() > MAX_BENEFICIARIES {
        return Err(VestingError::TooManyBeneficiaries);
    }
    if total_amount == 0 {
        return Err(VestingError::InvalidAmount);
    }
    if decimals > MAX_DECIMALS {
        return Err(VestingError::InvalidDecimals);
    }
    match first_terms_violation(beneficiaries, now) {
        Some(e) => {
            return Err(e);
        },
        None => {},
    }
    if has_duplicate_key(beneficiaries) {
        return Err(VestingError::DuplicateBeneficiary);
    }
    match checked_total_allocated(beneficiaries) {
        None => Err(VestingError::MathOverflow),
        Some(total) => {
            if total > total_amount {
                Err(VestingError::OverAllocation)
            } else {
                Ok(())
            }
        },
    }
}

} // verus!
