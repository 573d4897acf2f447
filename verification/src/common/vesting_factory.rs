//! The messages of the factory.

use crate::common::vesting::{ScheduleView, VestingSchedule};
use vstd::prelude::*;

verus! {

/// Sets the factory up for the ledger code that it is to instantiate.
#[derive(Clone, Debug, PartialEq)]
pub struct InstantiateMsg {
    pub vesting_contract_code_id: u64,
}

/// What may be asked of the factory.
#[derive(Clone, Debug, PartialEq)]
pub enum ExecuteMsg {
    /// Opens a ledger for `owner_address` over the funds that come with the
    /// message.
    CreateVestingContract {
        owner_address: String,
        enable_staking: bool,
        vesting_schedule: VestingSchedule,
    },
}

/// A request to the factory as plain values.
pub ghost enum ExecuteMsgView {
    CreateVestingContract {
        owner_address: Seq<char>,
        enable_staking: bool,
        vesting_schedule: ScheduleView,
    },
}

impl View for ExecuteMsg {
    type V = ExecuteMsgView;

    open spec fn view(&self) -> ExecuteMsgView {
        match self {
            ExecuteMsg::CreateVestingContract {
                owner_address,
                enable_staking,
                vesting_schedule,
            } => ExecuteMsgView::CreateVestingContract {
                owner_address: owner_address@,
                enable_staking: *enable_staking,
                vesting_schedule: vesting_schedule@,
            },
        }
    }
}

/// What may be asked about the factory.
#[derive(Clone, Debug, PartialEq)]
pub enum QueryMsg {
    /// The ledger of `owner_address`.
    VestingContract { owner_address: String },
}

/// An owner and the ledger that the factory opened for them.
#[derive(Clone, Debug, PartialEq)]
pub struct VestingContractResponse {
    pub owner_address: String,
    pub vesting_contract: String,
}

/// An owner and their ledger as plain values.
pub ghost struct VestingContractResponseView {
    pub owner_address: Seq<char>,
    pub vesting_contract: Seq<char>,
}

impl View for VestingContractResponse {
    type V = VestingContractResponseView;

    open spec fn view(&self) -> VestingContractResponseView {
        VestingContractResponseView {
            owner_address: self.owner_address@,
            vesting_contract: self.vesting_contract@,
        }
    }
}

} // verus!
