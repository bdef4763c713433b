use groth16_verifier::error::{classified, ProofPart, VerifyError};
use groth16_solana::errors::Groth16Error;

#[test]
fn each_error_has_its_code() {
    assert_eq!(VerifyError::BadInstructionLength.code(), 1);
    assert_eq!(VerifyError::Decompression { which: ProofPart::A }.code(), 2);
    assert_eq!(VerifyError::Decompression { which: ProofPart::B }.code(), 3);
    assert_eq!(VerifyError::Decompression { which: ProofPart::C }.code(), 4);
    assert_eq!(VerifyError::VerifierConstruction.code(), 4);
    assert_eq!(VerifyError::ProofRejected.code(), 5);
}

#[test]
fn errors_that_share_a_code_stay_apart() {
    let c = VerifyError::Decompression { which: ProofPart::C };
    assert_eq!(c.code(), VerifyError::VerifierConstruction.code());
    assert_ne!(c, VerifyError::VerifierConstruction);
    assert_ne!(VerifyError::ProofRejected, VerifyError::BadInstructionLength);
}

#[test]
fn a_value_passes_through_classification() {
    let r: Result<u8, Groth16Error> = Ok(7);
    assert_eq!(classified(r, VerifyError::ProofRejected), Ok(7));
    let r: Result<[u8; 2], Groth16Error> = Ok([1, 2]);
    assert_eq!(classified(r, VerifyError::BadInstructionLength), Ok([1, 2]));
}

#[test]
fn every_outside_error_becomes_the_given_failure() {
    let outside = [
        Groth16Error::IncompatibleVerifyingKeyWithNrPublicInputs,
        Groth16Error::ProofVerificationFailed,
        Groth16Error::PreparingInputsG1AdditionFailed,
        Groth16Error::PreparingInputsG1MulFailed,
        Groth16Error::InvalidG1Length,
        Groth16Error::InvalidG2Length,
        Groth16Error::InvalidPublicInputsLength,
        Groth16Error::DecompressingG1Failed,
        Groth16Error::DecompressingG2Failed,
        Groth16Error::PublicInputGreaterThanFieldSize,
    ];
    for e in outside {
        let r: Result<u8, Groth16Error> = Err(e.clone());
        assert_eq!(
            classified(r, VerifyError::VerifierConstruction),
            Err(VerifyError::VerifierConstruction)
        );
        let r: Result<(), Groth16Error> = Err(e);
        let failure = VerifyError::Decompression { which: ProofPart::B };
        assert_eq!(classified(r, failure), Err(failure));
    }
}
