//! What a ledger keeps between requests.

use crate::common::vesting::{ScheduleView, VestingSchedule};
use vstd::prelude::*;

verus! {

/// Who controls the ledger, and whether it may stake.
#[derive(Clone, Debug, PartialEq)]
pub struct Config {
    pub owner_address: String,
    pub staking_enabled: bool,
}

/// The deposit, its schedule, and how much of it was paid out.
#[derive(Clone, Debug, PartialEq)]
pub struct VestingInfo {
    pub vesting_amount: u128,
    pub vesting_schedule: VestingSchedule,
    pub claimed_amount: u128,
}

/// A ledger: everything that outlives a request.
#[derive(Clone, Debug, PartialEq)]
pub struct VestingLedger {
    pub config: Config,
    pub vesting_info: VestingInfo,
}

/// A ledger as plain values.
pub ghost struct LedgerModel {
    pub owner: Seq<char>,
    pub staking_enabled: bool,
    pub total_deposit: nat,
    pub schedule: ScheduleView,
    pub claimed_amount: nat,
}

impl LedgerModel {
    /// The deposit is not empty, its schedule is valid, and no more than the
    /// deposit was paid out.
    pub open spec fn wf(self) -> bool {
        &&& self.schedule.valid()
        &&& self.total_deposit > 0
        &&& self.claimed_amount <= self.total_deposit
    }

    /// The part of the deposit that has vested at `now`.
    pub open spec fn vested(self, now: nat) -> nat {
        self.schedule.terms().unwrap().vested(now, self.total_deposit)
    }

    /// What has vested at `now` and was not paid out yet; nothing where less
    /// has vested than was paid out.
    pub open spec fn claimable(self, now: nat) -> nat {
        if self.vested(now) >= self.claimed_amount {
            (self.vested(now) - self.claimed_amount) as nat
        } else {
            0
        }
    }

    /// At `now` no more was paid out than has vested.
    pub open spec fn consistent_at(self, now: nat) -> bool {
        self.claimed_amount <= self.vested(now)
    }
}

impl VestingLedger {
    /// Whether the ledger is well formed.
    pub fn is_well_formed(&self) -> (r: bool)
        ensures
            r == self@.wf(),
    {
        let info = &self.vesting_info;
        info.claimed_amount <= info.vesting_amount && info.vesting_schedule.validate(
            0,
            info.vesting_amount,
        ).is_ok()
    }
}

impl View for VestingLedger {
    type V = LedgerModel;

    open spec fn view(&self) -> LedgerModel {
        LedgerModel {
            owner: self.config.owner_address@,
            staking_enabled: self.config.staking_enabled,
            total_deposit: self.vesting_info.vesting_amount as nat,
            schedule: self.vesting_info.vesting_schedule@,
            claimed_amount: self.vesting_info.claimed_amount as nat,
        }
    }
}

} // verus!
