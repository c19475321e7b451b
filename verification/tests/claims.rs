use vesting::{
    claim_given_escrow, Beneficiary, DataAccount, Identity, TokensClaimed, VestingError,
    SECONDS_PER_MONTH,
};

const T0: i64 = 1_700_000_000;
const M: i64 = SECONDS_PER_MONTH;

fn id(tag: u8) -> Identity {
    let mut bytes = [0u8; 32];
    bytes[0] = tag;
    bytes[31] = 0xA5;
    Identity::from_bytes(bytes)
}

fn terms(tag: u8, allocated: u64, cliff: u8, total: u8) -> Beneficiary {
    Beneficiary {
        key: id(tag),
        allocated_tokens: allocated,
        claimed_tokens: 0,
        start_time: T0,
        cliff_months: cliff,
        total_months: total,
    }
}

fn account_with(beneficiaries: Vec<Beneficiary>) -> DataAccount {
    let total: u64 = beneficiaries.iter().map(|b| b.allocated_tokens).sum();
    DataAccount {
        token_amount: total,
        authority: id(200),
        escrow_wallet: id(201),
        token_mint: id(202),
        beneficiaries,
        decimals: 6,
    }
}

fn escrow() -> Option<(Identity, u8)> {
    Some((id(201), 254))
}

#[test]
fn month_length_is_30_44_days() {
    assert_eq!(SECONDS_PER_MONTH, 2_629_776);
    assert_eq!(vesting::GRACE_PERIOD, 6 * 2_629_776);
    assert_eq!(vesting::MAX_START_DELAY, 365 * 24 * 60 * 60);
    assert_eq!(vesting::MAX_BENEFICIARIES, 50);
    assert_eq!(vesting::MAX_DECIMALS, 9);
    assert_eq!(vesting::MAX_CLIFF_MONTHS, 48);
}

#[test]
fn claim_one_second_before_cliff_fails() {
    let b = terms(1, 1_200_000, 3, 12);
    assert_eq!(b.claimable_at(T0 + 3 * M - 1), Err(VestingError::CliffNotReached));
}

#[test]
fn claim_at_cliff_finds_nothing_vested_yet() {
    let b = terms(1, 1_200_000, 3, 12);
    assert_eq!(b.months_elapsed_at(T0 + 3 * M), 3);
    assert_eq!(b.unlocked_at(T0 + 3 * M), 0);
    assert_eq!(b.claimable_at(T0 + 3 * M), Err(VestingError::ClaimNotAllowed));
}

#[test]
fn claim_one_month_after_cliff_unlocks_a_ninth() {
    let b = terms(1, 1_200_000, 3, 12);
    assert_eq!(b.months_elapsed_at(T0 + 4 * M), 4);
    assert_eq!(b.unlocked_at(T0 + 4 * M), 133_333);
    assert_eq!(b.claimable_at(T0 + 4 * M), Ok(133_333));
}

#[test]
fn claim_operation_follows_the_calculator() {
    let mut account = account_with(vec![terms(1, 1_200_000, 3, 12)]);
    let before = account.clone();

    let early = claim_given_escrow(&mut account, &escrow(), &id(1), &id(201), 254, 5_000_000, T0 + 3 * M - 1);
    assert_eq!(early, Err(VestingError::CliffNotReached));
    assert_eq!(account, before);

    let at_cliff = claim_given_escrow(&mut account, &escrow(), &id(1), &id(201), 254, 5_000_000, T0 + 3 * M);
    assert_eq!(at_cliff, Err(VestingError::ClaimNotAllowed));
    assert_eq!(account, before);

    let later = claim_given_escrow(&mut account, &escrow(), &id(1), &id(201), 254, 5_000_000, T0 + 4 * M);
    assert_eq!(
        later,
        Ok(TokensClaimed { beneficiary: id(1), amount: 133_333, timestamp: T0 + 4 * M })
    );
    assert_eq!(account.beneficiaries[0].claimed_tokens, 133_333);
    assert_eq!(account.beneficiaries[0].allocated_tokens, 1_200_000);
    assert_eq!(account.authority, before.authority);
    assert_eq!(account.token_amount, before.token_amount);
}

#[test]
fn claim_before_start_without_cliff_is_not_allowed() {
    let b = terms(1, 1_000, 0, 10);
    assert_eq!(b.months_elapsed_at(T0 - 1), 0);
    assert_eq!(b.claimable_at(T0 - 1), Err(VestingError::ClaimNotAllowed));
    assert_eq!(b.claimable_at(T0 - 5 * M), Err(VestingError::ClaimNotAllowed));
}

#[test]
fn months_elapsed_rounds_down() {
    let b = terms(1, 1_000, 0, 10);
    assert_eq!(b.months_elapsed_at(T0), 0);
    assert_eq!(b.months_elapsed_at(T0 + M - 1), 0);
    assert_eq!(b.months_elapsed_at(T0 + M), 1);
    assert_eq!(b.months_elapsed_at(T0 + 2 * M - 1), 1);
    assert_eq!(b.months_elapsed_at(T0 + 7 * M + 5), 7);
}

#[test]
fn months_elapsed_over_the_whole_clock_range() {
    let b = Beneficiary { start_time: i64::MIN, ..terms(1, 1_000, 0, 10) };
    // (2^64 - 1) / 2_629_776
    assert_eq!(b.months_elapsed_at(i64::MAX), 7_014_568_569_227);
    assert_eq!(b.claimable_at(i64::MAX), Ok(1_000));
}

#[test]
fn unlocked_rounds_down_each_month() {
    let b = terms(1, 1_000, 2, 5);
    assert_eq!(b.unlocked_at(T0 + 2 * M), 0);
    assert_eq!(b.unlocked_at(T0 + 3 * M), 333);
    assert_eq!(b.unlocked_at(T0 + 4 * M), 666);
    assert_eq!(b.unlocked_at(T0 + 5 * M), 1_000);
    assert_eq!(b.unlocked_at(T0 + 50 * M), 1_000);
}

#[test]
fn full_vesting_unlocks_the_allocation_exactly() {
    let b = terms(1, 1_000_003, 3, 12);
    assert_eq!(b.unlocked_at(T0 + 11 * M), 888_891);
    assert_eq!(b.unlocked_at(T0 + 12 * M), 1_000_003);
    assert_eq!(b.claimable_at(T0 + 12 * M), Ok(1_000_003));
    let big = terms(2, u64::MAX, 1, 255);
    assert_eq!(big.unlocked_at(T0 + 255 * M), u64::MAX);
    assert_eq!(big.unlocked_at(T0 + 254 * M), 18_374_119_097_041_403_773);
}

#[test]
fn claimable_is_what_is_unlocked_less_what_is_claimed() {
    let b = Beneficiary { claimed_tokens: 133_333, ..terms(1, 1_200_000, 3, 12) };
    assert_eq!(b.claimable_at(T0 + 4 * M), Err(VestingError::ClaimNotAllowed));
    assert_eq!(b.claimable_at(T0 + 5 * M), Ok(266_666 - 133_333));
    assert_eq!(b.claimable_at(T0 + 12 * M), Ok(1_200_000 - 133_333));
}

#[test]
fn claimed_above_unlocked_saturates_to_nothing() {
    let b = Beneficiary { claimed_tokens: 2_000_000, ..terms(1, 1_200_000, 3, 12) };
    assert_eq!(b.claimable_at(T0 + 12 * M), Err(VestingError::ClaimNotAllowed));
}

#[test]
fn zero_vesting_span_is_a_configuration_error() {
    let same = terms(1, 1_000, 6, 6);
    assert_eq!(same.claimable_at(T0 + 12 * M), Err(VestingError::InvalidVestingConfig));
    let longer_cliff = terms(1, 1_000, 7, 6);
    assert_eq!(longer_cliff.claimable_at(T0 + 12 * M), Err(VestingError::InvalidVestingConfig));
    let mut account = account_with(vec![same]);
    let before = account.clone();
    let r = claim_given_escrow(&mut account, &escrow(), &id(1), &id(201), 254, 1_000, T0 + 12 * M);
    assert_eq!(r, Err(VestingError::InvalidVestingConfig));
    assert_eq!(account, before);
}

#[test]
fn claim_checks_the_escrow_first() {
    let mut account = account_with(vec![terms(1, 1_200_000, 3, 12)]);
    let before = account.clone();
    let now = T0 + 4 * M;

    let wrong_wallet = claim_given_escrow(&mut account, &escrow(), &id(9), &id(77), 254, 5_000_000, now);
    assert_eq!(wrong_wallet, Err(VestingError::InvalidEscrowWallet));

    let wrong_bump = claim_given_escrow(&mut account, &escrow(), &id(9), &id(201), 253, 5_000_000, now);
    assert_eq!(wrong_bump, Err(VestingError::InvalidEscrowBump));

    let no_address = claim_given_escrow(&mut account, &None, &id(1), &id(201), 254, 5_000_000, now);
    assert_eq!(no_address, Err(VestingError::InvalidEscrowWallet));

    let stranger = claim_given_escrow(&mut account, &escrow(), &id(9), &id(201), 254, 5_000_000, now);
    assert_eq!(stranger, Err(VestingError::BeneficiaryNotFound));
    assert_eq!(account, before);
}

#[test]
fn claim_needs_the_escrow_to_hold_enough() {
    let mut account = account_with(vec![terms(1, 1_200_000, 3, 12)]);
    let before = account.clone();
    let short = claim_given_escrow(&mut account, &escrow(), &id(1), &id(201), 254, 133_332, T0 + 4 * M);
    assert_eq!(short, Err(VestingError::InsufficientBalance));
    assert_eq!(account, before);
    let exact = claim_given_escrow(&mut account, &escrow(), &id(1), &id(201), 254, 133_333, T0 + 4 * M);
    assert_eq!(exact.map(|c| c.amount), Ok(133_333));
}

#[test]
fn claimed_never_falls_and_never_exceeds_the_allocation() {
    let mut account = account_with(vec![terms(1, 1_200_000, 3, 12), terms(2, 700, 0, 7)]);
    let mut last = [0u64, 0u64];
    let mut paid = [0u64, 0u64];
    for month in 0..20 {
        let now = T0 + month * M + 17;
        for (slot, who) in [(0usize, 1u8), (1usize, 2u8)] {
            let r = claim_given_escrow(&mut account, &escrow(), &id(who), &id(201), 254, u64::MAX, now);
            if let Ok(c) = r {
                paid[slot] += c.amount;
            }
            for (k, b) in account.beneficiaries.iter().enumerate() {
                assert!(b.claimed_tokens >= last[k]);
                assert!(b.claimed_tokens <= b.allocated_tokens);
                last[k] = b.claimed_tokens;
            }
        }
    }
    assert_eq!(account.beneficiaries[0].claimed_tokens, 1_200_000);
    assert_eq!(account.beneficiaries[1].claimed_tokens, 700);
    assert_eq!(paid, [1_200_000, 700]);
}

#[test]
fn claim_goes_to_the_first_beneficiary_with_the_identity() {
    let mut twin = terms(1, 500, 0, 5);
    twin.start_time = T0 + 100 * M;
    let mut account = account_with(vec![terms(3, 10, 0, 1), terms(1, 1_000, 0, 10), twin]);
    let r = claim_given_escrow(&mut account, &escrow(), &id(1), &id(201), 254, 10_000, T0 + 4 * M);
    assert_eq!(r.map(|c| c.amount), Ok(400));
    assert_eq!(account.beneficiaries[1].claimed_tokens, 400);
    assert_eq!(account.beneficiaries[2].claimed_tokens, 0);
    assert_eq!(account.position(&id(1)), Some(1));
    assert_eq!(account.position(&id(3)), Some(0));
    assert_eq!(account.position(&id(4)), None);
}
