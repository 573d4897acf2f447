//! The factory: opens one ledger for each owner and remembers which.

pub mod contract;
pub mod laws;
pub mod response;
pub mod state;
