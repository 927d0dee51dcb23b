/// Utilities for closing accounts and transferring their lamports.
pub mod closers;
/// Utilities for converting between different data formats.
pub mod conversions;
/// Generic utility functions for Solana programs.
pub mod generic;
/// Utilities for transferring SOL and SPL tokens.
pub mod transfers;
/// Validation utilities for Solana programs.
pub mod validators;
