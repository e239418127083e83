//! Seed-bound verifiable randomness built on BLS12-381 signatures.
//!
//! A caller-supplied seed deterministically yields a keypair and a signature;
//! the signature doubles as the pseudorandom output and its own proof. A
//! commit/reveal scheme over SHA-256 lets a seed be pledged before disclosure,
//! and a payload builder assembles fixtures in the fixed-size encodings an
//! on-chain verifier expects.

pub mod api;
pub mod bls;
pub mod commit;
pub mod encode;
pub mod hash;
pub mod helpers;
pub mod laws;
pub mod types;
