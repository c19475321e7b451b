//! A vesting ledger engine: who may withdraw how much of an escrowed token
//! balance, and when.

pub mod identity;
pub mod error;
pub mod constants;
pub mod beneficiary;
pub mod validator;
pub mod events;
pub mod address;
pub mod account;
pub mod sweep;
pub mod operations;

pub use account::{calculate_vesting_space, DataAccount};
pub use beneficiary::Beneficiary;
pub use constants::{
    GRACE_PERIOD, MAX_BENEFICIARIES, MAX_CLIFF_MONTHS, MAX_DECIMALS, MAX_START_DELAY,
    SECONDS_PER_MONTH,
};
pub use error::VestingError;
pub use events::{AdminChanged, AllUnclaimedWithdrawn, TokensClaimed, VestingInitialized};
pub use identity::Identity;
pub use operations::{
    change_admin, claim, claim_given_escrow, initialize, withdraw, withdraw_given_escrow,
};
pub use validator::validate_schedule;
