use vesting::{
    withdraw_given_escrow, AllUnclaimedWithdrawn, Beneficiary, DataAccount, Identity,
    VestingError, SECONDS_PER_MONTH,
};

const T0: i64 = 1_700_000_000;
const M: i64 = SECONDS_PER_MONTH;

fn id(tag: u8) -> Identity {
    let mut bytes = [0u8; 32];
    bytes[0] = tag;
    bytes[31] = 0xC3;
    Identity::from_bytes(bytes)
}

fn terms(tag: u8, allocated: u64, claimed: u64, total: u8) -> Beneficiary {
    Beneficiary {
        key: id(tag),
        allocated_tokens: allocated,
        claimed_tokens: claimed,
        start_time: T0,
        cliff_months: 3,
        total_months: total,
    }
}

fn account_with(beneficiaries: Vec<Beneficiary>) -> DataAccount {
    DataAccount {
        token_amount: 10_000_000,
        authority: id(200),
        escrow_wallet: id(201),
        token_mint: id(202),
        beneficiaries,
        decimals: 6,
    }
}

fn escrow() -> Option<(Identity, u8)> {
    Some((id(201), 254))
}

fn sweep(account: &mut DataAccount, balance: u64, now: i64) -> Result<AllUnclaimedWithdrawn, VestingError> {
    withdraw_given_escrow(account, &escrow(), &id(200), &id(201), 254, balance, now)
}

#[test]
fn sweep_after_grace_takes_all_that_is_left() {
    let mut account = account_with(vec![terms(1, 1_200_000, 133_333, 12)]);
    let now = T0 + 12 * M + 6 * M + 1;
    let r = sweep(&mut account, 5_000_000, now);
    assert_eq!(
        r,
        Ok(AllUnclaimedWithdrawn {
            admin: id(200),
            total_amount: 1_200_000 - 133_333,
            beneficiaries_processed: 1,
            timestamp: now,
        })
    );
    assert_eq!(account.beneficiaries[0].claimed_tokens, 1_200_000);
    assert_eq!(account.beneficiaries[0].allocated_tokens, 1_200_000);
    assert_eq!(
        account.beneficiaries[0].claimable_at(now),
        Err(VestingError::ClaimNotAllowed)
    );
}

#[test]
fn grace_ends_strictly_after_eighteen_months_for_a_year_of_vesting() {
    let b = terms(1, 1_200_000, 0, 12);
    assert!(!b.grace_elapsed_at(T0 + 18 * M - 1));
    assert!(!b.grace_elapsed_at(T0 + 18 * M));
    assert!(b.grace_elapsed_at(T0 + 18 * M + 1));
    assert!(b.sweepable_at(T0 + 18 * M + 1));
    assert!(!b.sweepable_at(T0 + 18 * M));
    assert_eq!(b.unclaimed_tokens(), 1_200_000);

    let mut account = account_with(vec![b]);
    let before = account.clone();
    assert_eq!(sweep(&mut account, 5_000_000, T0 + 18 * M), Err(VestingError::NoUnclaimedTokens));
    assert_eq!(account, before);
}

#[test]
fn grace_check_is_exact_at_the_ends_of_the_clock() {
    let late = Beneficiary { start_time: i64::MAX, ..terms(1, 10, 0, 255) };
    assert!(!late.grace_elapsed_at(i64::MAX));
    let early = Beneficiary { start_time: i64::MIN, ..terms(1, 10, 0, 255) };
    assert!(early.grace_elapsed_at(i64::MIN + 261 * M + 1));
    assert!(!early.grace_elapsed_at(i64::MIN + 261 * M));
}

#[test]
fn sweep_leaves_beneficiaries_in_grace_untouched() {
    let expired = terms(1, 1_000, 250, 12);
    let in_grace = terms(2, 2_000, 500, 24);
    let fully_claimed = terms(3, 300, 300, 12);
    let mut account = account_with(vec![expired, in_grace, fully_claimed]);
    let now = T0 + 18 * M + 1;
    let r = sweep(&mut account, 750, now);
    assert_eq!(
        r,
        Ok(AllUnclaimedWithdrawn {
            admin: id(200),
            total_amount: 750,
            beneficiaries_processed: 1,
            timestamp: now,
        })
    );
    assert_eq!(account.beneficiaries[0], Beneficiary { claimed_tokens: 1_000, ..expired });
    assert_eq!(account.beneficiaries[1], in_grace);
    assert_eq!(account.beneficiaries[2], fully_claimed);
    assert_eq!(account.token_amount, 10_000_000);
    assert_eq!(account.authority, id(200));

    // A second sweep at the same instant finds nothing.
    let again = account.clone();
    assert_eq!(sweep(&mut account, 750, now), Err(VestingError::NoUnclaimedTokens));
    assert_eq!(account, again);

    // Once the second grace period is over, the rest can be taken.
    let later = T0 + 30 * M + 1;
    let r = sweep(&mut account, 1_500, later);
    assert_eq!(r.map(|w| (w.total_amount, w.beneficiaries_processed)), Ok((1_500, 1)));
    assert_eq!(account.beneficiaries[1].claimed_tokens, 2_000);
}

#[test]
fn sweep_adds_up_everything_past_grace() {
    let mut account = account_with(vec![
        terms(1, 1_000, 0, 12),
        terms(2, 2_000, 1_999, 12),
        terms(3, 300, 300, 12),
        terms(4, 40, 10, 6),
    ]);
    let r = sweep(&mut account, 1_031, T0 + 19 * M);
    assert_eq!(r.map(|w| (w.total_amount, w.beneficiaries_processed)), Ok((1_031, 3)));
    let claimed: Vec<u64> = account.beneficiaries.iter().map(|b| b.claimed_tokens).collect();
    assert_eq!(claimed, vec![1_000, 2_000, 300, 40]);
    assert_eq!(vesting::sweep::sweep_totals(&account.beneficiaries, T0 + 19 * M), Some((0, 0)));
}

#[test]
fn sweep_checks_escrow_then_administrator_then_balance() {
    let mut account = account_with(vec![terms(1, 1_000, 0, 12)]);
    let before = account.clone();
    let now = T0 + 19 * M;

    let r = withdraw_given_escrow(&mut account, &escrow(), &id(66), &id(9), 254, 5_000, now);
    assert_eq!(r, Err(VestingError::InvalidEscrowWallet));
    let r = withdraw_given_escrow(&mut account, &escrow(), &id(66), &id(201), 0, 5_000, now);
    assert_eq!(r, Err(VestingError::InvalidEscrowBump));
    let r = withdraw_given_escrow(&mut account, &None, &id(200), &id(201), 254, 5_000, now);
    assert_eq!(r, Err(VestingError::InvalidEscrowWallet));
    let r = withdraw_given_escrow(&mut account, &escrow(), &id(66), &id(201), 254, 5_000, now);
    assert_eq!(r, Err(VestingError::UnauthorizedAdmin));
    let r = withdraw_given_escrow(&mut account, &escrow(), &id(200), &id(201), 254, 999, now);
    assert_eq!(r, Err(VestingError::InsufficientBalance));
    assert_eq!(account, before);
    let r = withdraw_given_escrow(&mut account, &escrow(), &id(200), &id(201), 254, 1_000, now);
    assert_eq!(r.map(|w| w.total_amount), Ok(1_000));
}

#[test]
fn sweep_total_beyond_64_bits_is_an_overflow() {
    let mut account = account_with(vec![terms(1, u64::MAX, 0, 12), terms(2, 1, 0, 12)]);
    let before = account.clone();
    assert_eq!(sweep(&mut account, u64::MAX, T0 + 19 * M), Err(VestingError::MathOverflow));
    assert_eq!(account, before);
    assert_eq!(vesting::sweep::sweep_totals(&account.beneficiaries, T0 + 19 * M), None);
    assert_eq!(vesting::sweep::sweep_totals(&account.beneficiaries, T0), Some((0, 0)));
}

#[test]
fn claimed_above_allocation_is_never_swept() {
    let odd = terms(1, 100, 150, 12);
    assert_eq!(odd.unclaimed_tokens(), 0);
    let mut account = account_with(vec![odd, terms(2, 10, 0, 12)]);
    let r = sweep(&mut account, 1_000, T0 + 19 * M);
    assert_eq!(r.map(|w| (w.total_amount, w.beneficiaries_processed)), Ok((10, 1)));
    assert_eq!(account.beneficiaries[0], odd);
}

#[test]
fn apply_sweep_changes_only_what_the_totals_count() {
    let mut list = vec![terms(1, 1_000, 1, 12), terms(2, 2_000, 2, 24)];
    vesting::sweep::apply_sweep(&mut list, T0 + 18 * M);
    assert_eq!(list, vec![terms(1, 1_000, 1, 12), terms(2, 2_000, 2, 24)]);
    vesting::sweep::apply_sweep(&mut list, T0 + 18 * M + 1);
    assert_eq!(list, vec![terms(1, 1_000, 1_000, 12), terms(2, 2_000, 2, 24)]);
}
