//! A small proof-of-work puzzle: find a nonce whose double SHA-512 digest,
//! written in lowercase hex, starts with a required number of `0` characters.
//!
//! Solving takes a search over nonces; checking a proposed solution takes a
//! single digest. The puzzle carries no replay protection of its own: a caller
//! has to bind the timestamp to a challenge it issued.

pub mod diagnostic;
pub mod hashing;
pub mod inputs;
pub mod mining;
pub mod text;

pub use hashing::hash;
pub use inputs::HashInputs;
pub use inputs::Puzzle;
pub use mining::mine;
pub use mining::verify;
pub use mining::winning_hash;
