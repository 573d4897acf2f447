//! Token vesting: a ledger that releases one deposit to its owner over
//! equal intervals, and a factory that provisions one ledger per owner.

pub mod common;
pub mod decimal;
pub mod error;
pub mod math;
pub mod response;
pub mod vesting;
pub mod vesting_factory;
