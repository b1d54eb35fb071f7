//! A custodial staking ledger: per-depositor records that accrue yield on a
//! staked principal at a fixed annual rate, with deposit, full-withdrawal and
//! reward-claim transitions.
//!
//! The library is the accounting core alone. Moving tokens between accounts,
//! reading the clock and storing records belong to the surrounding runtime;
//! every transition here takes the current time as an argument and returns the
//! single transfer the caller must perform.

pub mod account;
pub mod engine;
pub mod laws;
