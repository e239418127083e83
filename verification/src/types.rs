//! The proof bundle and the error taxonomy for VRF operations.

use vstd::prelude::*;

verus! {

/// VRFProof includes the random output and the public key for verification.
#[derive(Debug)]
pub struct VRFProof {
    /// The randomness (signature)
    pub output: Vec<u8>,
    /// The proof (public key)
    pub public_key: Vec<u8>,
}

/// Errors that can occur during VRF operations. All are terminal: retrying
/// with the same inputs deterministically reproduces the same error.
#[derive(Debug, Clone, Copy, PartialEq, Eq, Structural)]
pub enum VRFError {
    /// The signature is invalid or malformed.
    InvalidSignature,
    /// The public key is invalid or malformed.
    InvalidPublicKey,
    /// The commitment is invalid or does not match (reserved; no current
    /// operation reports it).
    InvalidCommitment,
    /// Deserialization of key or signature failed.
    DeserializationError,
    /// Verification of the proof failed.
    VerificationFailed,
}

impl VRFError {
    /// A human-readable description of the error.
    pub fn message(&self) -> (r: &'static str)
        ensures
            *self == VRFError::InvalidSignature ==> r@ == "Invalid signature"@,
            *self == VRFError::InvalidPublicKey ==> r@ == "Invalid public key"@,
            *self == VRFError::InvalidCommitment ==> r@ == "Invalid commitment"@,
            *self == VRFError::DeserializationError ==> r@ == "Deserialization error"@,
            *self == VRFError::VerificationFailed ==> r@ == "Verification failed"@,
    {
        match self {
            VRFError::InvalidSignature => "Invalid signature",
            VRFError::InvalidPublicKey => "Invalid public key",
            VRFError::InvalidCommitment => "Invalid commitment",
            VRFError::DeserializationError => "Deserialization error",
            VRFError::VerificationFailed => "Verification failed",
        }
    }
}

} // verus!
