//! The four operations on a schedule: create it, claim from it, sweep it,
//! hand it over. Each either succeeds as a whole or leaves the record as it
//! was.

use vstd::prelude::*;
use crate::account::{
    claims_advance, lemma_advance_keeps_wf, lemma_position_holds_key, position_of, DataAccount,
    Schedule,
};
use crate::address::{check_escrow, derive_escrow_address, escrow_address, escrow_check};
use crate::beneficiary::{
    lemma_claim_before_cliff_fails, lemma_claim_within_allocation, Beneficiary,
};
use crate::constants::SECONDS_PER_MONTH;
use crate::error::VestingError;
use crate::events::{AdminChanged, AllUnclaimedWithdrawn, TokensClaimed, VestingInitialized};
use crate::identity::Identity;
use crate::sweep::{
    apply_sweep, lemma_sweep_only_after_grace, lemma_swept_bounds, lemma_swept_within_allocated,
    sweep_all, sweep_totals, swept_count, swept_total,
};
use crate::validator::{
    clear_claimed, lemma_accepted_is_well_formed, nothing_claimed, schedule_check,
    total_allocated, validate_schedule,
};

verus! {

/// Whether `sender` may create a schedule in a record: the record has no
/// administrator yet, or `sender` is the one it has.
pub open spec fn may_create(acct: Schedule, sender: Identity) -> bool {
    acct.authority.is_null_spec() || acct.authority == sender
}

/// What creating a schedule yields. In order: a record that has an
/// administrator is closed to everybody else; a record that already holds
/// beneficiaries cannot be created again; the null identity administers
/// nothing; the proposal must meet the rules of creation; and the sender
/// must hold the amount.
pub open spec fn initialize_result(
    acct: Schedule,
    sender: Identity,
    token_mint: Identity,
    source_balance: u64,
    beneficiaries: Seq<Beneficiary>,
    amount: u64,
    decimals: u8,
    now: i64,
) -> Result<VestingInitialized, VestingError> {
    if !may_create(acct, sender) {
        Err(VestingError::UnauthorizedAdmin)
    } else if acct.beneficiaries.len() > 0 {
        Err(VestingError::AlreadyInitialized)
    } else if sender.is_null_spec() {
        Err(VestingError::InvalidAddress)
    } else {
        match schedule_check(beneficiaries, amount, decimals, now as int) {
            Err(e) => Err(e),
            Ok(_) => {
                if source_balance < amount {
                    Err(VestingError::InsufficientBalance)
                } else {
                    Ok(
                        VestingInitialized {
                            admin: sender,
                            token_mint,
                            total_amount: amount,
                            beneficiaries_count: beneficiaries.len() as u32,
                        },
                    )
                }
            },
        }
    }
}

/// Creates a schedule in `data_account`, administered by `sender`. The
/// record must hold no beneficiaries yet, and if it has an administrator,
/// that must be `sender`, who may not be the null identity. The proposal is
/// held to the rules of creation at `now`, and `source_balance`, what the
/// sender holds of the asset, must cover `amount`. Every beneficiary starts
/// with nothing claimed, whatever the proposal says of it, so the record is
/// well-formed from creation on. On success the caller owes the escrow a
/// transfer of `amount` from the sender.
pub fn initialize(
    data_account: &mut DataAccount,
    sender: &Identity,
    token_mint: &Identity,
    escrow_wallet: &Identity,
    source_balance: u64,
    beneficiaries: Vec<Beneficiary>,
    amount: u64,
    decimals: u8,
    now: i64,
) -> (r: Result<VestingInitialized, VestingError>)
    ensures
        r == initialize_result(
            old(data_account)@,
            *sender,
            *token_mint,
            source_balance,
            beneficiaries@,
            amount,
            decimals,
            now,
        ),
        final(data_account)@ == if r is Ok {
            (Schedule {
                token_amount: amount,
                authority: *sender,
                escrow_wallet: *escrow_wallet,
                token_mint: *token_mint,
                beneficiaries: nothing_claimed(beneficiaries@),
                decimals,
            })
        } else {
            old(data_account)@
        },
        r is Ok ==> final(data_account)@.wf(),
        r is Ok ==> old(data_account)@.beneficiaries.len() == 0,
        r is Ok ==> forall|i: int|
            0 <= i < final(data_account)@.beneficiaries.len() ==> (
            #[trigger] final(data_account)@.beneficiaries[i]).claimed_tokens
                <= final(data_account)@.beneficiaries[i].allocated_tokens,
        r is Ok ==> total_allocated(final(data_account)@.beneficiaries) <= amount,
        total_allocated(beneficiaries@) > amount ==> r is Err,
{
    if !data_account.authority.is_null() && !(data_account.authority == *sender) {
        return Err(VestingError::UnauthorizedAdmin);
    }
    if data_account.beneficiaries.len() > 0 {
        return Err(VestingError::AlreadyInitialized);
    }
    if sender.is_null() {
        return Err(VestingError::InvalidAddress);
    }
    match validate_schedule(&beneficiaries, amount, decimals, now) {
        Err(e) => {
            return Err(e);
        },
        Ok(_) => {},
    }
    if source_balance < amount {
        return Err(VestingError::InsufficientBalance);
    }
    proof {
        lemma_accepted_is_well_formed(beneficiaries@, amount, decimals, now as int);
    }
    let count: u32 = beneficiaries.len() as u32;
    let mut stored: Vec<Beneficiary> = beneficiaries;
    clear_claimed(&mut stored);
    data_account.authority = *sender;
    data_account.beneficiaries = stored;
    data_account.token_amount = amount;
    data_account.decimals = decimals;
    data_account.escrow_wallet = *escrow_wallet;
    data_account.token_mint = *token_mint;
    Ok(
        VestingInitialized {
            admin: *sender,
            token_mint: *token_mint,
            total_amount: amount,
            beneficiaries_count: count,
        },
    )
}

/// What a claim yields, given the escrow address derived for the schedule.
pub open spec fn claim_result(
    acct: Schedule,
    derived: Option<(Identity, u8)>,
    sender: Identity,
    escrow_wallet: Identity,
    escrow_bump: u8,
    escrow_balance: u64,
    now: i64,
) -> Result<TokensClaimed, VestingError> {
    match escrow_check(derived, escrow_wallet, escrow_bump) {
        Err(e) => Err(e),
        Ok(_) => match position_of(acct.beneficiaries, sender) {
            None => Err(VestingError::BeneficiaryNotFound),
            Some(i) => match acct.beneficiaries[i].claim_outcome(now as int) {
                Err(e) => Err(e),
                Ok(amount) => {
                    if escrow_balance < amount {
                        Err(VestingError::InsufficientBalance)
                    } else {
                        Ok(TokensClaimed { beneficiary: sender, amount, timestamp: now })
                    }
                },
            },
        },
    }
}

/// The schedule after `sender` has claimed `amount`.
pub open spec fn after_claim(acct: Schedule, sender: Identity, amount: u64) -> Schedule {
    let i = position_of(acct.beneficiaries, sender)->0;
    Schedule {
        beneficiaries: acct.beneficiaries.update(i, acct.beneficiaries[i].credited(amount)),
        ..acct
    }
}

/// A claim by `sender` at `now`, checked against `derived`, the escrow
/// address derived for the schedule. In order: the escrow presented must be
/// the derived one, by address and by bump seed; `sender` must be a
/// beneficiary; the claim calculator must find something newly claimable;
/// and `escrow_balance` must cover it. On success the amount is added to
/// what the beneficiary has claimed, and the caller owes the beneficiary a
/// transfer of that amount from the escrow.
pub fn claim_given_escrow(
    data_account: &mut DataAccount,
    derived: &Option<(Identity, u8)>,
    sender: &Identity,
    escrow_wallet: &Identity,
    escrow_bump: u8,
    escrow_balance: u64,
    now: i64,
) -> (r: Result<TokensClaimed, VestingError>)
    ensures
        r == claim_result(
            old(data_account)@,
            *derived,
            *sender,
            *escrow_wallet,
            escrow_bump,
            escrow_balance,
            now,
        ),
        final(data_account)@ == match r {
            Ok(claimed) => after_claim(old(data_account)@, *sender, claimed.amount),
            Err(_) => old(data_account)@,
        },
        claims_advance(old(data_account)@.beneficiaries, final(data_account)@.beneficiaries),
        old(data_account)@.wf() ==> final(data_account)@.wf(),
{
    match check_escrow(derived, escrow_wallet, escrow_bump) {
        Err(e) => {
            return Err(e);
        },
        Ok(_) => {},
    }
    let index: usize = match data_account.position(sender) {
        None => {
            return Err(VestingError::BeneficiaryNotFound);
        },
        Some(i) => i,
    };
    let beneficiary: Beneficiary = data_account.beneficiaries[index];
    let amount: u64 = match beneficiary.claimable_at(now) {
        Err(e) => {
            return Err(e);
        },
        Ok(a) => a,
    };
    if escrow_balance < amount {
        return Err(VestingError::InsufficientBalance);
    }
    data_account.beneficiaries[index].claimed_tokens = beneficiary.claimed_tokens + amount;
    proof {
        assert(data_account@.beneficiaries =~= old(data_account)@.beneficiaries.update(
            index as int,
            beneficiary.credited(amount),
        ));
        if old(data_account)@.wf() {
            lemma_advance_keeps_wf(old(data_account)@, data_account@);
        }
    }
    Ok(TokensClaimed { beneficiary: *sender, amount, timestamp: now })
}

/// A claim by `sender` at `now` from the schedule in `data_account`, run by
/// `program_id`. The escrow address is derived from the schedule's asset and
/// the program; the rest is `claim_given_escrow`.
pub fn claim(
    data_account: &mut DataAccount,
    program_id: &Identity,
    sender: &Identity,
    escrow_wallet: &Identity,
    escrow_bump: u8,
    escrow_balance: u64,
    now: i64,
) -> (r: Result<TokensClaimed, VestingError>)
    ensures
        r == claim_result(
            old(data_account)@,
            escrow_address(old(data_account)@.token_mint, *program_id),
            *sender,
            *escrow_wallet,
            escrow_bump,
            escrow_balance,
            now,
        ),
        final(data_account)@ == match r {
            Ok(claimed) => after_claim(old(data_account)@, *sender, claimed.amount),
            Err(_) => old(data_account)@,
        },
        claims_advance(old(data_account)@.beneficiaries, final(data_account)@.beneficiaries),
        old(data_account)@.wf() ==> final(data_account)@.wf(),
{
    let derived = derive_escrow_address(&data_account.token_mint, program_id);
    claim_given_escrow(
        data_account,
        &derived,
        sender,
        escrow_wallet,
        escrow_bump,
        escrow_balance,
        now,
    )
}

/// Before a beneficiary's cliff their claim is refused with
/// `CliffNotReached`, whatever the escrow holds: for a beneficiary of the
/// schedule with a cliff and a positive vesting span, presenting the derived
/// escrow, at every instant earlier than the start plus the cliff months.
pub proof fn lemma_claim_refused_before_cliff(
    acct: Schedule,
    derived: Option<(Identity, u8)>,
    sender: Identity,
    escrow_wallet: Identity,
    escrow_bump: u8,
    escrow_balance: u64,
    now: i64,
)
    requires
        escrow_check(derived, escrow_wallet, escrow_bump) is Ok,
        position_of(acct.beneficiaries, sender) is Some,
        ({
            let b = acct.beneficiaries[position_of(acct.beneficiaries, sender)->0];
            &&& b.vesting_span() > 0
            &&& b.cliff_months > 0
            &&& now < b.start_time + b.cliff_months * SECONDS_PER_MONTH
        }),
    ensures
        claim_result(acct, derived, sender, escrow_wallet, escrow_bump, escrow_balance, now)
            == Err::<TokensClaimed, VestingError>(VestingError::CliffNotReached),
{
    let b = acct.beneficiaries[position_of(acct.beneficiaries, sender)->0];
    lemma_claim_before_cliff_fails(b, now as int);
}

/// A successful claim changes one thing: the claimant has claimed more than
/// before, and exactly what is unlocked, which is no more than the
/// allocation. Everybody else, and every term, stays as it was, and a
/// well-formed schedule stays well-formed.
pub proof fn lemma_claim_advances(
    acct: Schedule,
    derived: Option<(Identity, u8)>,
    sender: Identity,
    escrow_wallet: Identity,
    escrow_bump: u8,
    escrow_balance: u64,
    now: i64,
)
    requires
        claim_result(acct, derived, sender, escrow_wallet, escrow_bump, escrow_balance, now)
            is Ok,
    ensures
        ({
            let amount = claim_result(
                acct,
                derived,
                sender,
                escrow_wallet,
                escrow_bump,
                escrow_balance,
                now,
            )->Ok_0.amount;
            let i = position_of(acct.beneficiaries, sender)->0;
            let after = after_claim(acct, sender, amount);
            &&& 0 <= i < acct.beneficiaries.len()
            &&& acct.beneficiaries[i].key == sender
            &&& 0 < amount <= escrow_balance
            &&& after.beneficiaries[i].claimed_tokens == acct.beneficiaries[i].claimed_tokens
                + amount
            &&& after.beneficiaries[i].claimed_tokens == acct.beneficiaries[i].unlocked(
                now as int,
            )
            &&& after.beneficiaries[i].claimed_tokens <= acct.beneficiaries[i].allocated_tokens
            &&& forall|j: int|
                0 <= j < acct.beneficiaries.len() && j != i ==> after.beneficiaries[j]
                    == acct.beneficiaries[j]
            &&& claims_advance(acct.beneficiaries, after.beneficiaries)
            &&& acct.wf() ==> after.wf()
        }),
{
    lemma_position_holds_key(acct.beneficiaries, sender);
    let i = position_of(acct.beneficiaries, sender)->0;
    lemma_claim_within_allocation(acct.beneficiaries[i], now as int);
    let amount = acct.beneficiaries[i].claim_outcome(now as int)->Ok_0;
    let after = after_claim(acct, sender, amount);
    if acct.wf() {
        lemma_advance_keeps_wf(acct, after);
    }
}

/// What a sweep yields, given the escrow address derived for the schedule.
pub open spec fn withdraw_result(
    acct: Schedule,
    derived: Option<(Identity, u8)>,
    admin: Identity,
    escrow_wallet: Identity,
    escrow_bump: u8,
    escrow_balance: u64,
    now: i64,
) -> Result<AllUnclaimedWithdrawn, VestingError> {
    let total = swept_total(acct.beneficiaries, now as int);
    let count = swept_count(acct.beneficiaries, now as int);
    match escrow_check(derived, escrow_wallet, escrow_bump) {
        Err(e) => Err(e),
        Ok(_) => {
            if acct.authority != admin {
                Err(VestingError::UnauthorizedAdmin)
            } else if total > u64::MAX || count > u32::MAX {
                Err(VestingError::MathOverflow)
            } else if total == 0 {
                Err(VestingError::NoUnclaimedTokens)
            } else if escrow_balance < total {
                Err(VestingError::InsufficientBalance)
            } else {
                Ok(
                    AllUnclaimedWithdrawn {
                        admin,
                        total_amount: total as u64,
                        beneficiaries_processed: count as u32,
                        timestamp: now,
                    },
                )
            }
        },
    }
}

/// A sweep of a well-formed schedule never overflows: it takes no more than
/// the schedule was funded with, from no more beneficiaries than it has.
pub proof fn lemma_sweep_within_funding(
    acct: Schedule,
    derived: Option<(Identity, u8)>,
    admin: Identity,
    escrow_wallet: Identity,
    escrow_bump: u8,
    escrow_balance: u64,
    now: i64,
)
    requires
        acct.wf(),
    ensures
        0 <= swept_total(acct.beneficiaries, now as int) <= acct.token_amount,
        0 <= swept_count(acct.beneficiaries, now as int) <= acct.beneficiaries.len(),
        withdraw_result(acct, derived, admin, escrow_wallet, escrow_bump, escrow_balance, now)
            != Err::<AllUnclaimedWithdrawn, VestingError>(VestingError::MathOverflow),
{
    lemma_swept_bounds(acct.beneficiaries, now as int);
    lemma_swept_within_allocated(acct.beneficiaries, now as int);
}

/// A sweep by `admin` at `now`, checked against `derived`, the escrow address
/// derived for the schedule. In order: the escrow presented must be the
/// derived one, by address and by bump seed; `admin` must be the schedule's
/// administrator; the sweep must take something; and `escrow_balance` must
/// cover it. On success every beneficiary the sweep takes from ends fully
/// claimed, nobody else changes, and the caller owes the administrator a
/// transfer of the total from the escrow.
pub fn withdraw_given_escrow(
    data_account: &mut DataAccount,
    derived: &Option<(Identity, u8)>,
    admin: &Identity,
    escrow_wallet: &Identity,
    escrow_bump: u8,
    escrow_balance: u64,
    now: i64,
) -> (r: Result<AllUnclaimedWithdrawn, VestingError>)
    ensures
        r == withdraw_result(
            old(data_account)@,
            *derived,
            *admin,
            *escrow_wallet,
            escrow_bump,
            escrow_balance,
            now,
        ),
        final(data_account)@ == if r is Ok {
            (Schedule {
                beneficiaries: sweep_all(old(data_account)@.beneficiaries, now as int),
                ..old(data_account)@
            })
        } else {
            old(data_account)@
        },
        final(data_account)@.beneficiaries.len() == old(data_account)@.beneficiaries.len(),
        forall|i: int|
            0 <= i < old(data_account)@.beneficiaries.len() && !(
            #[trigger] old(data_account)@.beneficiaries[i]).grace_elapsed(now as int) ==> final(data_account)@.beneficiaries[i] == old(data_account)@.beneficiaries[i],
        claims_advance(old(data_account)@.beneficiaries, final(data_account)@.beneficiaries),
        old(data_account)@.wf() ==> final(data_account)@.wf(),
{
    match check_escrow(derived, escrow_wallet, escrow_bump) {
        Err(e) => {
            return Err(e);
        },
        Ok(_) => {},
    }
    if !(data_account.authority == *admin) {
        return Err(VestingError::UnauthorizedAdmin);
    }
    let (total, count): (u64, u32) = match sweep_totals(&data_account.beneficiaries, now) {
        None => {
            return Err(VestingError::MathOverflow);
        },
        Some(totals) => totals,
    };
    if total == 0 {
        return Err(VestingError::NoUnclaimedTokens);
    }
    if escrow_balance < total {
        return Err(VestingError::InsufficientBalance);
    }
    apply_sweep(&mut data_account.beneficiaries, now);
    proof {
        lemma_sweep_only_after_grace(old(data_account)@.beneficiaries, now as int);
        if old(data_account)@.wf() {
            lemma_advance_keeps_wf(old(data_account)@, data_account@);
        }
    }
    Ok(
        AllUnclaimedWithdrawn {
            admin: *admin,
            total_amount: total,
            beneficiaries_processed: count,
            timestamp: now,
        },
    )
}

/// A sweep by `admin` at `now` of the schedule in `data_account`, run by
/// `program_id`. The escrow address is derived from the schedule's asset and
/// the program; the rest is `withdraw_given_escrow`.
pub fn withdraw(
    data_account: &mut DataAccount,
    program_id: &Identity,
    admin: &Identity,
    escrow_wallet: &Identity,
    escrow_bump: u8,
    escrow_balance: u64,
    now: i64,
) -> (r: Result<AllUnclaimedWithdrawn, VestingError>)
    ensures
        r == withdraw_result(
            old(data_account)@,
            escrow_address(old(data_account)@.token_mint, *program_id),
            *admin,
            *escrow_wallet,
            escrow_bump,
            escrow_balance,
            now,
        ),
        final(data_account)@ == if r is Ok {
            (Schedule {
                beneficiaries: sweep_all(old(data_account)@.beneficiaries, now as int),
                ..old(data_account)@
            })
        } else {
            old(data_account)@
        },
        forall|i: int|
            0 <= i < old(data_account)@.beneficiaries.len() && !(
            #[trigger] old(data_account)@.beneficiaries[i]).grace_elapsed(now as int) ==> final(data_account)@.beneficiaries[i] == old(data_account)@.beneficiaries[i],
        claims_advance(old(data_account)@.beneficiaries, final(data_account)@.beneficiaries),
        old(data_account)@.wf() ==> final(data_account)@.wf(),
{
    let derived = derive_escrow_address(&data_account.token_mint, program_id);
    withdraw_given_escrow(
        data_account,
        &derived,
        admin,
        escrow_wallet,
        escrow_bump,
        escrow_balance,
        now,
    )
}

/// What handing the schedule over yields.
pub open spec fn change_admin_result(
    acct: Schedule,
    current_admin: Identity,
    new_admin: Identity,
    now: i64,
) -> Result<AdminChanged, VestingError> {
    if acct.authority != current_admin {
        Err(VestingError::UnauthorizedAdmin)
    } else if new_admin == current_admin {
        Err(VestingError::SameAdmin)
    } else if new_admin.is_null_spec() {
        Err(VestingError::InvalidAddress)
    } else {
        Ok(AdminChanged { old_admin: current_admin, new_admin, timestamp: now })
    }
}

/// Hands the schedule from `current_admin`, who must be its administrator,
/// to `new_admin`, who must be somebody else and not the null identity.
pub fn change_admin(
    data_account: &mut DataAccount,
    current_admin: &Identity,
    new_admin: &Identity,
    now: i64,
) -> (r: Result<AdminChanged, VestingError>)
    ensures
        r == change_admin_result(old(data_account)@, *current_admin, *new_admin, now),
        final(data_account)@ == if r is Ok {
            (Schedule { authority: *new_admin, ..old(data_account)@ })
        } else {
            old(data_account)@
        },
        claims_advance(old(data_account)@.beneficiaries, final(data_account)@.beneficiaries),
        old(data_account)@.wf() ==> final(data_account)@.wf(),
{
    if !(data_account.authority == *current_admin) {
        return Err(VestingError::UnauthorizedAdmin);
    }
    if *new_admin == *current_admin {
        return Err(VestingError::SameAdmin);
    }
    if new_admin.is_null() {
        return Err(VestingError::InvalidAddress);
    }
    let handed_over = data_account.set_authority(*new_admin);
    assert(handed_over);
    Ok(AdminChanged { old_admin: *current_admin, new_admin: *new_admin, timestamp: now })
}

} // verus!
