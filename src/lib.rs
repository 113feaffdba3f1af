//! A registry in which one designated oracle publishes a compliance risk
//! score per wallet, and from which anyone reads it back, with a safe default
//! for wallets that have no score.

pub mod contract;
pub mod error;
pub mod laws;
pub mod msg;
pub mod state;
