//! Messages of the contracts that a staking ledger talks to.

pub mod handle;
