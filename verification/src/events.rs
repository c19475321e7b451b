//! What each operation reports when it succeeds.

use vstd::prelude::*;
use crate::identity::Identity;

verus! {

/// A schedule was created.
#[derive(Clone, Copy, Debug, PartialEq, Eq)]
pub struct VestingInitialized {
    pub admin: Identity,
    pub token_mint: Identity,
    pub total_amount: u64,
    pub beneficiaries_count: u32,
}

/// A beneficiary claimed `amount` raw units.
#[derive(Clone, Copy, Debug, PartialEq, Eq)]
pub struct TokensClaimed {
    pub beneficiary: Identity,
    pub amount: u64,
    pub timestamp: i64,
}

/// The administrator swept what `beneficiaries_processed` beneficiaries had
/// left unclaimed, `total_amount` raw units in all.
#[derive(Clone, Copy, Debug, PartialEq, Eq)]
pub struct AllUnclaimedWithdrawn {
    pub admin: Identity,
    pub total_amount: u64,
    pub beneficiaries_processed: u32,
    pub timestamp: i64,
}

/// The administrator handed the schedule over.
#[derive(Clone, Copy, Debug, PartialEq, Eq)]
pub struct AdminChanged {
    pub old_admin: Identity,
    pub new_admin: Identity,
    pub timestamp: i64,
}

} // verus!
