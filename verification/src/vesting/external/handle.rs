//! The messages of the reward contract and of the hub contract.

use vstd::prelude::*;

verus! {

/// What may be asked of the reward contract.
#[derive(Clone, Debug, PartialEq)]
pub enum RewardContractExecuteMsg {
    /// Withdraws the rewards of the sender, to `recipient` or, without one,
    /// to the sender.
    ClaimRewards { recipient: Option<String> },
}

/// What may be asked about the reward contract.
#[derive(Clone, Debug, PartialEq)]
pub enum RewardContractQueryMsg {
    /// The rewards that `address` has accrued.
    AccruedRewards { address: String },
}

/// What may be asked of the hub contract.
#[derive(Clone, Debug, PartialEq)]
pub enum HubContractExecuteMsg {
    /// Stakes the funds of the message, spread over the validators of the
    /// registry, and issues the sender the staked token in return.
    Bond {  },
}

/// The rewards that an address has accrued.
#[derive(Clone, Debug, PartialEq)]
pub struct AccruedRewardsResponse {
    pub rewards: u128,
}

} // verus!
