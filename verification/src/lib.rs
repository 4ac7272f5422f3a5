//! A custodial staking ledger.
//!
//! A principal deposits tokens into a holding account that only the program
//! can debit, and later takes the deposit back together with a reward that
//! grows with the time elapsed and is paid out of a shared vault.

pub mod account;
pub mod address;
pub mod amount;
pub mod error;
pub mod laws;
pub mod program;
pub mod stake_info;
