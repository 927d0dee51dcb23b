//! The calls this library makes into other crates. Verus takes the contract of
//! each item here on trust; everything outside this module is proved from them.

/// Arbitrary-precision integers of `num_bigint`.
pub mod bigint;
/// SHA-256 of `sha2`.
pub mod digest;
/// Addresses, system instructions and memory of `solana_program`.
pub mod solana;
/// UTF-8 text of the standard library.
pub mod text;
/// Instructions and addresses of the SPL token programs.
pub mod token;
