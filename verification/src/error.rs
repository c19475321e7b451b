//! The ways an operation on a vesting schedule can be refused.

use vstd::prelude::*;

verus! {

/// Why an operation was refused. A refused operation leaves the schedule as
/// it was.
#[derive(Clone, Copy, Debug, PartialEq, Eq, Structural)]
pub enum VestingError {
    InvalidSender,
    ClaimNotAllowed,
    BeneficiaryNotFound,
    CliffNotReached,
    TooManyBeneficiaries,
    InvalidVestingConfig,
    InvalidVestingPeriod,
    CliffTooLong,
    MathOverflow,
    NoBeneficiaries,
    InvalidAmount,
    InvalidCliffPeriod,
    InvalidAllocation,
    InvalidStartTime,
    InsufficientBalance,
    InvalidDecimals,
    OverAllocation,
    DuplicateBeneficiary,
    UnauthorizedAdmin,
    NoUnclaimedTokens,
    StartTimeTooFar,
    InvalidEscrowWallet,
    InvalidEscrowBump,
    SameAdmin,
    InvalidAddress,
    AlreadyInitialized,
}

impl VestingError {
    /// The text shown to a user for each error.
    pub open spec fn message_spec(&self) -> Seq<char> {
        match self {
            VestingError::InvalidSender => "Unauthorized: sender is not the program admin"@,
            VestingError::ClaimNotAllowed => "No tokens available to claim at this time"@,
            VestingError::BeneficiaryNotFound => "Beneficiary address not found in vesting program"@,
            VestingError::CliffNotReached => "Cliff period has not elapsed - tokens not yet available"@,
            VestingError::TooManyBeneficiaries => "Too many beneficiaries - maximum 50 allowed"@,
            VestingError::InvalidVestingConfig => "Invalid vesting configuration: total months must be divisible by cliff months"@,
            VestingError::InvalidVestingPeriod => "Invalid vesting period: must be at least 1 month"@,
            VestingError::CliffTooLong => "Cliff period too long - maximum 48 months allowed"@,
            VestingError::MathOverflow => "Mathematical overflow detected in calculation"@,
            VestingError::NoBeneficiaries => "At least one beneficiary must be specified"@,
            VestingError::InvalidAmount => "Token amount must be greater than zero"@,
            VestingError::InvalidCliffPeriod => "Cliff period must be less than total vesting period"@,
            VestingError::InvalidAllocation => "Beneficiary allocation must be greater than zero"@,
            VestingError::InvalidStartTime => "Start time must be in the future"@,
            VestingError::InsufficientBalance => "Insufficient token balance for requested operation"@,
            VestingError::InvalidDecimals => "Token decimals must be 9 or less"@,
            VestingError::OverAllocation => "Total beneficiary allocations exceed available tokens"@,
            VestingError::DuplicateBeneficiary => "Duplicate beneficiary address detected"@,
            VestingError::UnauthorizedAdmin => "Unauthorized: only program admin can perform this action"@,
            VestingError::NoUnclaimedTokens => "No unclaimed tokens available for withdrawal"@,
            VestingError::StartTimeTooFar => "Start time is too far in future"@,
            VestingError::InvalidEscrowWallet => "Invalid escrow wallet - PDA verification failed"@,
            VestingError::InvalidEscrowBump => "Invalid escrow bump seed"@,
            VestingError::SameAdmin => "Cannot set admin to the same address"@,
            VestingError::InvalidAddress => "Invalid admin address"@,
            VestingError::AlreadyInitialized => "Vesting schedule already initialized"@,
        }
    }

    /// The text shown to a user for this error.
    pub fn message(&self) -> (r: &'static str)
        ensures
            r@ == self.message_spec(),
    {
        match self {
            VestingError::InvalidSender => "Unauthorized: sender is not the program admin",
            VestingError::ClaimNotAllowed => "No tokens available to claim at this time",
            VestingError::BeneficiaryNotFound => "Beneficiary address not found in vesting program",
            VestingError::CliffNotReached => "Cliff period has not elapsed - tokens not yet available",
            VestingError::TooManyBeneficiaries => "Too many beneficiaries - maximum 50 allowed",
            VestingError::InvalidVestingConfig => "Invalid vesting configuration: total months must be divisible by cliff months",
            VestingError::InvalidVestingPeriod => "Invalid vesting period: must be at least 1 month",
            VestingError::CliffTooLong => "Cliff period too long - maximum 48 months allowed",
            VestingError::MathOverflow => "Mathematical overflow detected in calculation",
            VestingError::NoBeneficiaries => "At least one beneficiary must be specified",
            VestingError::InvalidAmount => "Token amount must be greater than zero",
            VestingError::InvalidCliffPeriod => "Cliff period must be less than total vesting period",
            VestingError::InvalidAllocation => "Beneficiary allocation must be greater than zero",
            VestingError::InvalidStartTime => "Start time must be in the future",
            VestingError::InsufficientBalance => "Insufficient token balance for requested operation",
            VestingError::InvalidDecimals => "Token decimals must be 9 or less",
            VestingError::OverAllocation => "Total beneficiary allocations exceed available tokens",
            VestingError::DuplicateBeneficiary => "Duplicate beneficiary address detected",
            VestingError::UnauthorizedAdmin => "Unauthorized: only program admin can perform this action",
            VestingError::NoUnclaimedTokens => "No unclaimed tokens available for withdrawal",
            VestingError::StartTimeTooFar => "Start time is too far in future",
            VestingError::InvalidEscrowWallet => "Invalid escrow wallet - PDA verification failed",
            VestingError::InvalidEscrowBump => "Invalid escrow bump seed",
            VestingError::SameAdmin => "Cannot set admin to the same address",
            VestingError::InvalidAddress => "Invalid admin address",
            VestingError::AlreadyInitialized => "Vesting schedule already initialized",
        }
    }
}

} // verus!
