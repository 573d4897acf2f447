//! What the ledger and the factory share: their messages and the vesting
//! schedule.

pub mod vesting;
pub mod vesting_factory;
