//! The pairing verification engine.
//!
//! A proof `(A, B, C)` satisfies the Groth16 equation for a key
//! `(alpha, beta, gamma, delta, IC)` and public inputs `x` when
//!
//! ```text
//! e(-A, B) * e(alpha, beta) * e(C, delta) * e(vk_x, gamma) = 1,
//! vk_x = IC[0] + x[0] * IC[1] + ... + x[n-1] * IC[n]
//! ```
//!
//! The product of the four pairings is computed by `groth16_solana`, which
//! pairs the first point it is given with `B` as it comes. This module
//! negates `A`, checks that key and inputs fit, hands the points over, and
//! classifies the answer.

use vstd::prelude::*;
use groth16_solana::errors::Groth16Error;
use groth16_solana::groth16::{Groth16Verifier, Groth16Verifyingkey};
use crate::curve::{negate_g1, negated_g1};
use crate::error::{classified, VerifyError};
use crate::field::{all_scalars, hold_scalars};
use crate::key::{KeyModel, VerifyingKey};
use crate::wire::{rows, Proof, ProofModel};

verus! {

/// Whether `Groth16Verifier::verify` of `groth16_solana` answers `Ok`,
/// given three affine points, the public inputs and the points of the key:
/// it does when it takes every point for a point of its group and every
/// input for a scalar, and finds that
/// `e(a, b) * e(vk_x, gamma) * e(c, delta) * e(alpha, beta)` is one. It
/// pairs `a` as it is given. It says nothing where the key does not fit the
/// inputs: no verifier exists for such a pair.
pub uninterp spec fn pairing_accepts(
    a: Seq<u8>,
    b: Seq<u8>,
    c: Seq<u8>,
    public_inputs: Seq<Seq<u8>>,
    alpha: Seq<u8>,
    beta: Seq<u8>,
    gamma: Seq<u8>,
    delta: Seq<u8>,
    ic: Seq<Seq<u8>>,
) -> bool;

/// A key fits a vector of public inputs when it has one `IC` point for each
/// input and one more for the constant term.
pub open spec fn key_fits(public_inputs: Seq<Seq<u8>>, key: KeyModel) -> bool {
    public_inputs.len() + 1 == key.ic.len()
}

/// Whether the engine accepts `proof` for `key` and `public_inputs`: every
/// input is a scalar, and the product of the pairings is one with the
/// negative of `A` in the place of the first point.
pub open spec fn accepts(proof: ProofModel, public_inputs: Seq<Seq<u8>>, key: KeyModel) -> bool {
    all_scalars(public_inputs) && pairing_accepts(
        negated_g1(proof.a),
        proof.b,
        proof.c,
        public_inputs,
        key.alpha,
        key.beta,
        key.gamma,
        key.delta,
        key.ic,
    )
}

/// What verifying a decompressed proof comes to.
pub open spec fn verdict(proof: ProofModel, public_inputs: Seq<Seq<u8>>, key: KeyModel) -> Result<
    (),
    VerifyError,
> {
    if !key_fits(public_inputs, key) {
        Err(VerifyError::VerifierConstruction)
    } else if accepts(proof, public_inputs, key) {
        Ok(())
    } else {
        Err(VerifyError::ProofRejected)
    }
}

/// `Groth16Verifier::new` of `groth16_solana`, with the verifier it builds
/// dropped. Trusted: the constructor succeeds exactly when the key has one
/// more `IC` point than there are public inputs; its other tests are on the
/// lengths of the proof's points, which the types fix.
#[verifier::external_body]
fn construct<const N: usize>(
    proof: &Proof,
    public_inputs: &[[u8; 32]; N],
    vk: &VerifyingKey,
) -> (r: Result<(), Groth16Error>)
    ensures
        r is Ok <==> N + 1 == vk.vk_ic@.len(),
{
    let key = Groth16Verifyingkey {
        nr_pubinputs: vk.nr_pubinputs,
        vk_alpha_g1: vk.vk_alpha_g1,
        vk_beta_g2: vk.vk_beta_g2,
        vk_gamme_g2: vk.vk_gamme_g2,
        vk_delta_g2: vk.vk_delta_g2,
        vk_ic: vk.vk_ic,
    };
    match Groth16Verifier::new(&proof.a, &proof.b, &proof.c, public_inputs, &key) {
        Ok(_) => Ok(()),
        Err(e) => Err(e),
    }
}

/// `Groth16Verifier::verify` of `groth16_solana`, on a verifier built from
/// the arguments. Trusted: the answer depends on the three points handed
/// over, the public inputs and the points of the key alone, so it is `Ok`
/// exactly when `pairing_accepts` holds of them. The points are passed on as
/// they are. The `requires` is the condition under which the verifier can be
/// built.
#[verifier::external_body]
fn check<const N: usize>(
    proof: &Proof,
    public_inputs: &[[u8; 32]; N],
    vk: &VerifyingKey,
) -> (r: Result<(), Groth16Error>)
    requires
        N + 1 == vk.vk_ic@.len(),
    ensures
        r is Ok <==> pairing_accepts(
            proof.a@,
            proof.b@,
            proof.c@,
            rows(public_inputs@),
            vk.vk_alpha_g1@,
            vk.vk_beta_g2@,
            vk.vk_gamme_g2@,
            vk.vk_delta_g2@,
            rows(vk.vk_ic@),
        ),
{
    let key = Groth16Verifyingkey {
        nr_pubinputs: vk.nr_pubinputs,
        vk_alpha_g1: vk.vk_alpha_g1,
        vk_beta_g2: vk.vk_beta_g2,
        vk_gamme_g2: vk.vk_gamme_g2,
        vk_delta_g2: vk.vk_delta_g2,
        vk_ic: vk.vk_ic,
    };
    Groth16Verifier::new(&proof.a, &proof.b, &proof.c, public_inputs, &key)?.verify()
}

/// Decides whether a decompressed proof `(A, B, C)` is valid for `vk` and
/// `public_inputs`.
///
/// `A` is the prover's point: it is negated here. A key that does not fit
/// the inputs is reported before any pairing is computed, and apart from a
/// proof that the engine rejects. A public input that is no scalar rejects
/// the proof before the engine sees it.
pub fn verify_proof<const N: usize>(
    proof: &Proof,
    public_inputs: &[[u8; 32]; N],
    vk: &VerifyingKey,
) -> (r: Result<(), VerifyError>)
    ensures
        r == verdict(proof@, rows(public_inputs@), vk@),
{
    let handed = Proof { a: negate_g1(&proof.a), b: proof.b, c: proof.c };
    classified(construct(&handed, public_inputs, vk), VerifyError::VerifierConstruction)?;
    if !hold_scalars(public_inputs) {
        return Err(VerifyError::ProofRejected);
    }
    classified(check(&handed, public_inputs, vk), VerifyError::ProofRejected)
}

} // verus!
