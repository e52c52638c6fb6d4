//! A token vesting ledger: company pools hold tokens in a custodial treasury,
//! and employees claim against time-locked grants with a cliff and a linear
//! release schedule.

pub mod accounts;
pub mod address;
pub mod error;
pub mod instructions;
pub mod ledger;
pub mod schedule;
