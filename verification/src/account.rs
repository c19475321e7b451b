//! The persistent record of one schedule, and its guarded mutations.

use vstd::prelude::*;
use crate::beneficiary::Beneficiary;
use crate::constants::{MAX_BENEFICIARIES, MAX_DECIMALS};
use crate::identity::Identity;
use crate::validator::{keys_distinct, lemma_total_allocated_same, total_allocated};

verus! {

/// The record of one vesting schedule: who administers it, which asset it
/// vests from which escrow, how much was funded, and its beneficiaries.
#[derive(Clone, Debug, PartialEq, Eq)]
pub struct DataAccount {
    pub token_amount: u64,
    pub authority: Identity,
    pub escrow_wallet: Identity,
    pub token_mint: Identity,
    pub beneficiaries: Vec<Beneficiary>,
    pub decimals: u8,
}

/// The mathematical content of a `DataAccount`.
pub struct Schedule {
    pub token_amount: u64,
    pub authority: Identity,
    pub escrow_wallet: Identity,
    pub token_mint: Identity,
    pub beneficiaries: Seq<Beneficiary>,
    pub decimals: u8,
}

impl View for DataAccount {
    type V = Schedule;

    open spec fn view(&self) -> Schedule {
        Schedule {
            token_amount: self.token_amount,
            authority: self.authority,
            escrow_wallet: self.escrow_wallet,
            token_mint: self.token_mint,
            beneficiaries: self.beneficiaries@,
            decimals: self.decimals,
        }
    }
}

impl Schedule {
    /// The standing invariant of a created schedule: an administrator who is
    /// not the null identity; at most 9 decimals; between 1 and 50
    /// beneficiaries with distinct identities, each with terms in order; and
    /// allocations that sum to no more than the positive total amount.
    pub open spec fn wf(self) -> bool {
        &&& !self.authority.is_null_spec()
        &&& self.decimals <= MAX_DECIMALS
        &&& self.token_amount > 0
        &&& 1 <= self.beneficiaries.len() <= MAX_BENEFICIARIES
        &&& forall|i: int| 0 <= i < self.beneficiaries.len() ==> (#[trigger] self.beneficiaries[i]).wf()
        &&& keys_distinct(self.beneficiaries)
        &&& total_allocated(self.beneficiaries) <= self.token_amount
    }
}

/// Bytes a stored record takes for `count` beneficiaries: an 8-byte tag, the
/// 8-byte amount, three 32-byte identities, the decimals, a 4-byte length,
/// 58 bytes for each beneficiary (an identity, three 8-byte numbers and two
/// bytes of months), and one byte to spare.
pub open spec fn record_space(count: nat) -> nat {
    8 + 8 + 32 + 32 + 32 + 1 + (4 + count * (32 + 8 + 8 + 8 + 1 + 1) + 1)
}

/// Bytes to set aside for the record of a schedule with
/// `beneficiaries_count` beneficiaries, or `None` if the number does not fit
/// the machine. A record is sized once, at creation.
pub fn calculate_vesting_space(beneficiaries_count: usize) -> (r: Option<usize>)
    ensures
        match r {
            Some(bytes) => bytes == record_space(beneficiaries_count as nat),
            None => record_space(beneficiaries_count as nat) > usize::MAX,
        },
{
    match beneficiaries_count.checked_mul(58) {
        None => None,
        Some(entries) => entries.checked_add(118),
    }
}

/// Some beneficiary of `s` has the identity `key`.
pub open spec fn has_key(s: Seq<Beneficiary>, key: Identity) -> bool {
    exists|i: int| 0 <= i < s.len() && (#[trigger] s[i]).key == key
}

/// `i` is the first beneficiary of `s` with the identity `key`.
pub open spec fn is_first_with_key(s: Seq<Beneficiary>, key: Identity, i: int) -> bool {
    &&& 0 <= i < s.len()
    &&& s[i].key == key
    &&& forall|j: int| 0 <= j < i ==> (#[trigger] s[j]).key != key
}

/// The place of the first beneficiary with the identity `key`, if there is one.
pub open spec fn position_of(s: Seq<Beneficiary>, key: Identity) -> Option<int> {
    if has_key(s, key) {
        Some(choose|i: int| is_first_with_key(s, key, i))
    } else {
        None
    }
}

/// One step in the life of a beneficiary list: nobody joins or leaves, no
/// terms change, and nothing claimed is taken back.
pub open spec fn claims_advance(before: Seq<Beneficiary>, after: Seq<Beneficiary>) -> bool {
    &&& after.len() == before.len()
    &&& forall|i: int|
        0 <= i < before.len() ==> {
            &&& (#[trigger] after[i]).key == before[i].key
            &&& after[i].allocated_tokens == before[i].allocated_tokens
            &&& after[i].start_time == before[i].start_time
            &&& after[i].cliff_months == before[i].cliff_months
            &&& after[i].total_months == before[i].total_months
            &&& after[i].claimed_tokens >= before[i].claimed_tokens
        }
}

/// Whether the record accepts `new_claimed` as the claimed amount of the
/// beneficiary at place `i`: it may neither fall nor exceed the allocation.
pub open spec fn claimed_update_ok(s: Seq<Beneficiary>, i: int, new_claimed: u64) -> bool {
    &&& 0 <= i < s.len()
    &&& s[i].claimed_tokens <= new_claimed <= s[i].allocated_tokens
}

/// The list with the claimed amount of the beneficiary at place `i` replaced.
pub open spec fn with_claimed(s: Seq<Beneficiary>, i: int, new_claimed: u64) -> Seq<Beneficiary> {
    s.update(i, Beneficiary { claimed_tokens: new_claimed, ..s[i] })
}

/// The first place that has a given identity is the one `position_of` names.
pub proof fn lemma_position_is_first(s: Seq<Beneficiary>, key: Identity, i: int)
    requires
        is_first_with_key(s, key, i),
    ensures
        position_of(s, key) == Some(i),
{
    assert(has_key(s, key));
    let c = choose|c: int| is_first_with_key(s, key, c);
    assert(is_first_with_key(s, key, c));
    assert(c == i);
}

/// Whatever place `position_of` names holds the identity, and is the first to.
pub proof fn lemma_position_holds_key(s: Seq<Beneficiary>, key: Identity)
    requires
        has_key(s, key),
    ensures
        is_first_with_key(s, key, position_of(s, key)->0),
{
    let k = choose|k: int| 0 <= k < s.len() && (#[trigger] s[k]).key == key;
    lemma_first_with_key_exists(s, key, k);
}

/// If some place holds an identity, some place is the first to hold it.
pub proof fn lemma_first_with_key_exists(s: Seq<Beneficiary>, key: Identity, k: int)
    requires
        0 <= k < s.len(),
        s[k].key == key,
    ensures
        exists|i: int| is_first_with_key(s, key, i),
    decreases k,
{
    if forall|j: int| 0 <= j < k ==> (#[trigger] s[j]).key != key {
        assert(is_first_with_key(s, key, k));
    } else {
        let j = choose|j: int| 0 <= j < k && !((#[trigger] s[j]).key != key);
        lemma_first_with_key_exists(s, key, j);
    }
}

/// A step keeps a well-formed list well-formed as long as nobody has
/// claimed more than their allocation after it.
pub proof fn lemma_advance_keeps_wf(before: Schedule, after: Schedule)
    requires
        before.wf(),
        claims_advance(before.beneficiaries, after.beneficiaries),
        after.token_amount == before.token_amount,
        after.decimals == before.decimals,
        !after.authority.is_null_spec(),
        forall|i: int|
            0 <= i < after.beneficiaries.len() ==> (#[trigger] after.beneficiaries[i]).claimed_tokens
                <= after.beneficiaries[i].allocated_tokens,
    ensures
        after.wf(),
{
    lemma_total_allocated_same(before.beneficiaries, after.beneficiaries);
    assert forall|i: int| 0 <= i < after.beneficiaries.len() implies (
    #[trigger] after.beneficiaries[i]).wf() by {
        assert(before.beneficiaries[i].wf());
    }
    assert forall|i: int, j: int| 0 <= i < j < after.beneficiaries.len() implies after.beneficiaries[i].key
        != after.beneficiaries[j].key by {
        assert(before.beneficiaries[i].key != before.beneficiaries[j].key);
    }
}

/// What all beneficiaries have claimed, in raw units.
pub open spec fn total_claimed(s: Seq<Beneficiary>) -> int
    decreases s.len(),
{
    if s.len() == 0 {
        0
    } else {
        total_claimed(s.drop_last()) + s.last().claimed_tokens
    }
}

/// Where nobody has claimed more than their allocation, no more was claimed
/// in all than was allocated in all.
pub proof fn lemma_total_claimed_within_allocated(s: Seq<Beneficiary>)
    requires
        forall|i: int| 0 <= i < s.len() ==> (#[trigger] s[i]).claimed_tokens <= s[i].allocated_tokens,
    ensures
        0 <= total_claimed(s) <= total_allocated(s),
    decreases s.len(),
{
    if s.len() > 0 {
        assert forall|i: int| 0 <= i < s.drop_last().len() implies (#[trigger] s.drop_last()[i]).claimed_tokens
            <= s.drop_last()[i].allocated_tokens by {
            assert(s.drop_last()[i] == s[i]);
        }
        lemma_total_claimed_within_allocated(s.drop_last());
    }
}

/// A well-formed schedule never owes more than it was funded with: what was
/// claimed is at most what was allocated, which is at most the total amount.
pub proof fn lemma_claimed_within_funding(acct: Schedule)
    requires
        acct.wf(),
    ensures
        total_claimed(acct.beneficiaries) <= total_allocated(acct.beneficiaries)
            <= acct.token_amount,
{
    assert forall|i: int| 0 <= i < acct.beneficiaries.len() implies (
    #[trigger] acct.beneficiaries[i]).claimed_tokens <= acct.beneficiaries[i].allocated_tokens by {
        assert(acct.beneficiaries[i].wf());
    }
    lemma_total_claimed_within_allocated(acct.beneficiaries);
}

/// Across successive steps nothing claimed is ever taken back: steps compose.
pub proof fn lemma_claims_advance_transitive(
    a: Seq<Beneficiary>,
    b: Seq<Beneficiary>,
    c: Seq<Beneficiary>,
)
    requires
        claims_advance(a, b),
        claims_advance(b, c),
    ensures
        claims_advance(a, c),
{
    assert forall|i: int| 0 <= i < a.len() implies {
        &&& (#[trigger] c[i]).key == a[i].key
        &&& c[i].allocated_tokens == a[i].allocated_tokens
        &&& c[i].start_time == a[i].start_time
        &&& c[i].cliff_months == a[i].cliff_months
        &&& c[i].total_months == a[i].total_months
        &&& c[i].claimed_tokens >= a[i].claimed_tokens
    } by {
        assert(b[i].key == a[i].key);
    }
}

impl DataAccount {
    /// A record that holds no schedule yet: no administrator, no beneficiaries.
    pub fn new() -> (r: DataAccount)
        ensures
            r@.authority.is_null_spec(),
            r@.escrow_wallet.is_null_spec(),
            r@.token_mint.is_null_spec(),
            r@.beneficiaries.len() == 0,
            r@.token_amount == 0,
            r@.decimals == 0,
    {
        DataAccount {
            token_amount: 0,
            authority: Identity::null(),
            escrow_wallet: Identity::null(),
            token_mint: Identity::null(),
            beneficiaries: Vec::new(),
            decimals: 0,
        }
    }

    /// The place of the first beneficiary with the identity `key`.
    pub fn position(&self, key: &Identity) -> (r: Option<usize>)
        ensures
            match r {
                Some(i) => position_of(self@.beneficiaries, *key) == Some(i as int)
                    && is_first_with_key(self@.beneficiaries, *key, i as int),
                None => position_of(self@.beneficiaries, *key) is None,
            },
    {
        let n: usize = self.beneficiaries.len();
        let mut i: usize = 0;
        while i < n
            invariant
                i <= n,
                n == self.beneficiaries@.len(),
                forall|j: int| 0 <= j < i ==> (#[trigger] self.beneficiaries@[j]).key != *key,
            decreases n - i,
        {
            if self.beneficiaries[i].key == *key {
                proof {
                    lemma_position_is_first(self@.beneficiaries, *key, i as int);
                }
                return Some(i);
            }
            i += 1;
        }
        None
    }

    /// Replaces the claimed amount of the beneficiary at place `index`, if
    /// the record accepts it.
    fn set_claimed_at(&mut self, index: usize, new_claimed: u64) -> (r: bool)
        ensures
            r == claimed_update_ok(old(self)@.beneficiaries, index as int, new_claimed),
            final(self)@ == if r {
                (Schedule {
                    beneficiaries: with_claimed(
                        old(self)@.beneficiaries,
                        index as int,
                        new_claimed,
                    ),
                    ..old(self)@
                })
            } else {
                old(self)@
            },
    {
        if index >= self.beneficiaries.len() {
            return false;
        }
        let current: Beneficiary = self.beneficiaries[index];
        if new_claimed < current.claimed_tokens || new_claimed > current.allocated_tokens {
            return false;
        }
        self.beneficiaries[index].claimed_tokens = new_claimed;
        true
    }

    /// Records that the beneficiary `key` has claimed `new_claimed` in all.
    /// The record refuses, and stays as it was, if there is no such
    /// beneficiary, if the amount is less than already claimed, or if it is
    /// more than allocated.
    pub fn set_claimed(&mut self, key: &Identity, new_claimed: u64) -> (r: bool)
        ensures
            r == match position_of(old(self)@.beneficiaries, *key) {
                Some(i) => claimed_update_ok(old(self)@.beneficiaries, i, new_claimed),
                None => false,
            },
            final(self)@ == if r {
                (Schedule {
                    beneficiaries: with_claimed(
                        old(self)@.beneficiaries,
                        position_of(old(self)@.beneficiaries, *key)->0,
                        new_claimed,
                    ),
                    ..old(self)@
                })
            } else {
                old(self)@
            },
            claims_advance(old(self)@.beneficiaries, final(self)@.beneficiaries),
            old(self)@.wf() ==> final(self)@.wf(),
    {
        match self.position(key) {
            None => false,
            Some(index) => {
                let done = self.set_claimed_at(index, new_claimed);
                proof {
                    if old(self)@.wf() {
                        lemma_advance_keeps_wf(old(self)@, self@);
                    }
                }
                done
            },
        }
    }

    /// Hands the schedule to `new_authority`; nothing else changes. The
    /// record refuses the null identity, and stays as it was.
    pub fn set_authority(&mut self, new_authority: Identity) -> (r: bool)
        ensures
            r == !new_authority.is_null_spec(),
            final(self)@ == if r {
                (Schedule { authority: new_authority, ..old(self)@ })
            } else {
                old(self)@
            },
            claims_advance(old(self)@.beneficiaries, final(self)@.beneficiaries),
            old(self)@.wf() ==> final(self)@.wf(),
    {
        if new_authority.is_null() {
            return false;
        }
        self.authority = new_authority;
        true
    }
}

impl Default for DataAccount {
    fn default() -> (r: DataAccount)
        ensures
            r@.authority.is_null_spec(),
            r@.beneficiaries.len() == 0,
    {
        DataAccount::new()
    }
}

} // verus!
