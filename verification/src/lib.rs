//! Verification of Groth16 proofs of one fixed circuit over BN254.
//!
//! A proof arrives as 128 bytes: a compressed G1 point, a compressed G2
//! point and a second compressed G1 point. The verifier splits the buffer,
//! decompresses the three points, and asks the pairing engine whether the
//! proof satisfies the verification equation for a verifying key and a
//! vector of public inputs. Every way of failing keeps its own
//! classification.
//!
//! - [`wire`]: the 128 bytes and their three parts.
//! - [`curve`]: from compressed points to affine points of the right groups.
//! - [`field`]: scalars and their range.
//! - [`key`]: verifying keys, and the tables of the embedded circuit.
//! - [`engine`]: the pairing check on a decompressed proof.
//! - [`instruction`]: the whole call, and what holds of its outcome.
//! - [`error`]: the failures and their codes.
//!
//! The curve arithmetic itself is that of `groth16_solana` and `ark_bn254`.
//! What is taken from them on trust is marked as such where it is declared.

pub mod curve;
pub mod engine;
pub mod error;
pub mod field;
pub mod instruction;
pub mod key;
pub mod wire;

pub use crate::error::{ProofPart, VerifyError};
pub use crate::instruction::{process_instruction, verify_instruction};
pub use crate::key::{verifying_key, VerifyingKey, PUBLIC_INPUTS};
