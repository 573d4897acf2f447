//! The ways in which a request to a ledger or to the factory is turned down.

use crate::decimal::{decimal, to_decimal};
use vstd::prelude::*;
use vstd::string::*;

verus! {

/// One of the three textual fields of a vesting schedule.
#[derive(Clone, Copy, Debug, PartialEq, Eq, Structural)]
pub enum ScheduleField {
    StartTime,
    EndTime,
    VestingInterval,
}

/// Why a request was turned down. A request that is turned down changes
/// nothing and emits nothing.
#[derive(Clone, Copy, Debug, PartialEq, Eq, Structural)]
pub enum ContractError {
    /// A vesting of zero tokens was asked for.
    ZeroAmount,
    /// A field of the schedule is no decimal numeral of a `u64`.
    InvalidField(ScheduleField),
    /// The schedule starts before the current time.
    StartInPast,
    /// The schedule does not end after it starts.
    EndNotAfterStart,
    /// The vesting interval is zero.
    ZeroInterval,
    /// The vesting period is no whole number of intervals.
    NonDivisibleInterval,
    /// The deposit is not exactly one coin of the vesting denomination.
    InvalidDeposit,
    /// The caller is not the owner of the ledger.
    Unauthorized,
    /// Exactly what was paid out has vested: nothing is left to claim.
    NothingToClaim,
    /// Less has vested than was paid out, so that the one cannot be taken
    /// from the other.
    Overflow { vested_amount: u128, claimed_amount: u128 },
    /// The ledger was created without staking.
    StakingDisabled,
    /// The owner already has a ledger.
    AlreadyExists,
    /// A creation result carries a token that the factory never issued.
    UnexpectedCorrelation,
    /// The payload of a creation result cannot be decoded.
    MalformedResult,
    /// Nothing is stored under the key that was asked for.
    NotFound,
}

impl ContractError {
    /// The text that goes with the error.
    pub open spec fn message_spec(self) -> Seq<char> {
        match self {
            ContractError::ZeroAmount => "cannot make zero token vesting account"@,
            ContractError::InvalidField(ScheduleField::StartTime) => "invalid start_time"@,
            ContractError::InvalidField(ScheduleField::EndTime) => "invalid end_time"@,
            ContractError::InvalidField(ScheduleField::VestingInterval) => "invalid vesting_interval"@,
            ContractError::StartInPast => "invalid start_time"@,
            ContractError::EndNotAfterStart => "end_time must be bigger than start_time"@,
            ContractError::ZeroInterval => "vesting_interval must be non-zero"@,
            ContractError::NonDivisibleInterval => "(end_time - start_time) must be multiple of vesting_interval"@,
            ContractError::InvalidDeposit => "only uluna is allowed to be deposited"@,
            ContractError::Unauthorized => "unauthorized"@,
            ContractError::NothingToClaim => "nothing to claim"@,
            ContractError::Overflow { vested_amount, claimed_amount } => "Overflow: Cannot Sub with "@
                + decimal(vested_amount as nat) + " and "@ + decimal(claimed_amount as nat),
            ContractError::StakingDisabled => "staking disabled"@,
            ContractError::AlreadyExists => "already exist"@,
            ContractError::UnexpectedCorrelation => "unauthorized"@,
            ContractError::MalformedResult => "failed to parse data"@,
            ContractError::NotFound => "not found"@,
        }
    }

    /// The text that goes with the error.
    pub fn message(&self) -> (r: String)
        ensures
            r@ == self.message_spec(),
    {
        let text = match self {
            ContractError::Overflow { vested_amount, claimed_amount } => {
                let mut text = String::from_str("Overflow: Cannot Sub with ");
                text.append(to_decimal(*vested_amount).as_str());
                text.append(" and ");
                text.append(to_decimal(*claimed_amount).as_str());
                return text;
            },
            ContractError::ZeroAmount => "cannot make zero token vesting account",
            ContractError::InvalidField(ScheduleField::StartTime) => "invalid start_time",
            ContractError::InvalidField(ScheduleField::EndTime) => "invalid end_time",
            ContractError::InvalidField(ScheduleField::VestingInterval) => "invalid vesting_interval",
            ContractError::StartInPast => "invalid start_time",
            ContractError::EndNotAfterStart => "end_time must be bigger than start_time",
            ContractError::ZeroInterval => "vesting_interval must be non-zero",
            ContractError::NonDivisibleInterval => "(end_time - start_time) must be multiple of vesting_interval",
            ContractError::InvalidDeposit => "only uluna is allowed to be deposited",
            ContractError::Unauthorized => "unauthorized",
            ContractError::NothingToClaim => "nothing to claim",
            ContractError::StakingDisabled => "staking disabled",
            ContractError::AlreadyExists => "already exist",
            ContractError::UnexpectedCorrelation => "unauthorized",
            ContractError::MalformedResult => "failed to parse data",
            ContractError::NotFound => "not found",
        };
        String::from_str(text)
    }
}

} // verus!
