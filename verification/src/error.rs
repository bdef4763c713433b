//! The ways in which a verification call can fail.

use vstd::prelude::*;
use groth16_solana::errors::Groth16Error;

verus! {

/// One of the three points of a proof.
#[derive(Clone, Copy, Debug, PartialEq, Eq, Structural)]
pub enum ProofPart {
    A,
    B,
    C,
}

/// Why a verification call did not accept.
///
/// Every error ends the call. A call is a function of its input alone, so
/// asking again with the same bytes gives the same answer.
#[derive(Clone, Copy, Debug, PartialEq, Eq, Structural)]
pub enum VerifyError {
    /// The instruction buffer is not exactly 128 bytes long.
    BadInstructionLength,
    /// The compressed bytes of one point do not decode to a point: they are
    /// no encoding, or name no point of the curve, or, for B, a point
    /// outside the prime-order subgroup.
    Decompression { which: ProofPart },
    /// The verifying key does not fit the number of public inputs. This
    /// tells of a fault in how the verifier was set up, not in the proof.
    VerifierConstruction,
    /// The engine does not accept the proof: the pairing equation does not
    /// hold of it, or a public input is no scalar. This is the ordinary
    /// answer to an invalid or forged proof.
    ProofRejected,
}

/// The number under which an error is reported to the host.
pub open spec fn spec_code(e: VerifyError) -> u32 {
    match e {
        VerifyError::BadInstructionLength => 1,
        VerifyError::Decompression { which: ProofPart::A } => 2,
        VerifyError::Decompression { which: ProofPart::B } => 3,
        VerifyError::Decompression { which: ProofPart::C } => 4,
        VerifyError::VerifierConstruction => 4,
        VerifyError::ProofRejected => 5,
    }
}

impl VerifyError {
    /// The failure code surfaced to the host. These numbers are part of the
    /// interface and stay fixed. A failure to decode `C` and a key that does
    /// not fit share one code; the other codes name one error each.
    pub fn code(&self) -> (n: u32)
        ensures
            n == spec_code(*self),
            1 <= n <= 5,
    {
        match self {
            VerifyError::BadInstructionLength => 1,
            VerifyError::Decompression { which: ProofPart::A } => 2,
            VerifyError::Decompression { which: ProofPart::B } => 3,
            VerifyError::Decompression { which: ProofPart::C } => 4,
            VerifyError::VerifierConstruction => 4,
            VerifyError::ProofRejected => 5,
        }
    }
}

/// The error type of `groth16_solana`, carried through and never looked into.
#[verifier::external_type_specification]
#[verifier::external_body]
pub struct ExGroth16Error(Groth16Error);

/// What a step comes to, given what the outside library answered: its value,
/// or `failure` in place of whatever error it reported.
pub fn classified<T>(r: Result<T, Groth16Error>, failure: VerifyError) -> (out: Result<
    T,
    VerifyError,
>)
    ensures
        match r {
            Ok(value) => out == Ok::<T, VerifyError>(value),
            Err(_) => out == Err::<T, VerifyError>(failure),
        },
{
    match r {
        Ok(value) => Ok(value),
        Err(_) => Err(failure),
    }
}

} // verus!
