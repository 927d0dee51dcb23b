//! The PDA program: a fixed-layout record, the instructions that create and
//! close it, and the processor that checks the accounts of each.

/// The instructions and their wire format.
pub mod instructions;
/// The processor of the instructions.
pub mod processor;
/// The record and its stored layout.
pub mod state;
