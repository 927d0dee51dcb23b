//! Helpers for Solana on-chain programs: balance and token transfers, account
//! closing, program-derived addresses, byte conversions, and the fixed-layout
//! record and instruction formats of the PDA program.

pub mod account;
pub mod errors;
pub mod helpers;
pub mod program;
pub mod trusted;
