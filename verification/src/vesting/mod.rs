//! The vesting ledger: one deposit, released to its owner over time.

pub mod contract;
pub mod external;
pub mod laws;
pub mod state;
