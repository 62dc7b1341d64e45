//! Builds and signs a self-transfer on a Solana-style ledger: a payer sends a
//! random share of its own balance to itself, with extra read-only accounts
//! attached to the transfer instruction.

pub mod ledger;
pub mod amount;
pub mod instruction;
pub mod transaction;
pub mod pipeline;
