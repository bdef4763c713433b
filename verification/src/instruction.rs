//! From an instruction buffer to a verification outcome.

use vstd::prelude::*;
use crate::curve::{decompress_proof, decompressed, g1_point, g2_member, in_g2, negated_g1};
use crate::engine::{accepts, key_fits, pairing_accepts, verdict, verify_proof};
use crate::error::{ProofPart, VerifyError};
use crate::field::all_scalars;
use crate::key::{
    embedded_inputs, embedded_key, lemma_embedded_inputs_are_scalars, verifying_key, KeyModel,
    VerifyingKey, PUBLIC_INPUTS,
};
use crate::wire::{part_a, part_b, part_c, rows, split_proof, ProofModel};

verus! {

/// What a verification call comes to, for an instruction buffer, a vector of
/// public inputs and a key.
///
/// The buffer's length is tested first, then the points are decoded in the
/// order A, B, C, then the key is held against the inputs, and last the
/// pairing equation decides.
pub open spec fn outcome(data: Seq<u8>, public_inputs: Seq<Seq<u8>>, key: KeyModel) -> Result<
    (),
    VerifyError,
> {
    if data.len() != 128 {
        Err(VerifyError::BadInstructionLength)
    } else {
        match decompressed(part_a(data), part_b(data), part_c(data)) {
            Err(e) => Err(e),
            Ok(proof) => verdict(proof, public_inputs, key),
        }
    }
}

/// Verifies the proof in `instruction_data` against `vk` and
/// `public_inputs`.
pub fn verify_instruction<const N: usize>(
    instruction_data: &[u8],
    public_inputs: &[[u8; 32]; N],
    vk: &VerifyingKey,
) -> (r: Result<(), VerifyError>)
    ensures
        r == outcome(instruction_data@, rows(public_inputs@), vk@),
{
    let compressed = split_proof(instruction_data)?;
    let proof = decompress_proof(&compressed)?;
    verify_proof(&proof, public_inputs, vk)
}

/// Verifies the proof in `instruction_data` against the key and the public
/// inputs of the embedded circuit.
pub fn process_instruction(instruction_data: &[u8]) -> (r: Result<(), VerifyError>)
    ensures
        r == outcome(instruction_data@, embedded_inputs(), embedded_key()),
        r != Err::<(), VerifyError>(VerifyError::VerifierConstruction),
{
    proof {
        lemma_embedded_key_fits();
    }
    let vk = verifying_key();
    verify_instruction(instruction_data, &PUBLIC_INPUTS, &vk)
}

/// The embedded key fits the embedded public inputs: nine inputs, ten `IC`
/// points.
pub proof fn lemma_embedded_key_fits()
    ensures
        key_fits(embedded_inputs(), embedded_key()),
{
}

/// For the embedded circuit only the bytes decide: a call succeeds exactly
/// on a buffer of 128 bytes whose parts decode to points of which, with A
/// negated, the pairing equation holds. The key fits and the inputs are
/// scalars, so neither can stand in the way.
pub proof fn lemma_embedded_circuit_outcome(data: Seq<u8>)
    ensures
        ({
            let r = outcome(data, embedded_inputs(), embedded_key());
            let decoded = decompressed(part_a(data), part_b(data), part_c(data));
            &&& r is Ok <==> data.len() == 128 && (decoded matches Ok(proof) && pairing_accepts(
                negated_g1(proof.a),
                proof.b,
                proof.c,
                embedded_inputs(),
                embedded_key().alpha,
                embedded_key().beta,
                embedded_key().gamma,
                embedded_key().delta,
                embedded_key().ic,
            ))
            &&& r != Err::<(), VerifyError>(VerifyError::VerifierConstruction)
        }),
{
    lemma_embedded_key_fits();
    lemma_embedded_inputs_are_scalars();
}

/// A buffer of any length but 128 is refused as such, whatever it holds and
/// whatever the key and the inputs are.
pub proof fn lemma_wrong_length_refused(data: Seq<u8>, public_inputs: Seq<Seq<u8>>, key: KeyModel)
    requires
        data.len() != 128,
    ensures
        outcome(data, public_inputs, key) == Err::<(), VerifyError>(
            VerifyError::BadInstructionLength,
        ),
{
}

/// Each error has one cause, and the causes are tried in a fixed order: the
/// length, then A, B and C, then the key, then the engine.
pub proof fn lemma_each_error_has_its_cause(
    data: Seq<u8>,
    public_inputs: Seq<Seq<u8>>,
    key: KeyModel,
)
    ensures
        ({
            let r = outcome(data, public_inputs, key);
            let full = data.len() == 128;
            let a = g1_point(part_a(data));
            let b = g2_member(part_b(data));
            let c = g1_point(part_c(data));
            let decoded = full && a is Some && b is Some && c is Some;
            let proof = ProofModel { a: a->Some_0, b: b->Some_0, c: c->Some_0 };
            &&& r == Err::<(), VerifyError>(VerifyError::BadInstructionLength) <==> !full
            &&& r == Err::<(), VerifyError>(VerifyError::Decompression { which: ProofPart::A })
                <==> full && a is None
            &&& r == Err::<(), VerifyError>(VerifyError::Decompression { which: ProofPart::B })
                <==> full && a is Some && b is None
            &&& r == Err::<(), VerifyError>(VerifyError::Decompression { which: ProofPart::C })
                <==> full && a is Some && b is Some && c is None
            &&& r == Err::<(), VerifyError>(VerifyError::VerifierConstruction) <==> decoded
                && !key_fits(public_inputs, key)
            &&& r == Err::<(), VerifyError>(VerifyError::ProofRejected) <==> decoded && key_fits(
                public_inputs,
                key,
            ) && !accepts(proof, public_inputs, key)
            &&& r is Ok <==> decoded && key_fits(public_inputs, key) && accepts(
                proof,
                public_inputs,
                key,
            )
        }),
{
}

/// Nothing is accepted by default: a call succeeds only on a buffer of 128
/// bytes whose three parts decode to points, with a key that fits the
/// inputs, and with a pairing equation that holds of exactly those points,
/// A negated.
pub proof fn lemma_accept_only_checked(data: Seq<u8>, public_inputs: Seq<Seq<u8>>, key: KeyModel)
    requires
        outcome(data, public_inputs, key) is Ok,
    ensures
        data.len() == 128,
        g1_point(part_a(data)) is Some,
        g2_member(part_b(data)) is Some,
        in_g2(g2_member(part_b(data))->Some_0),
        g1_point(part_c(data)) is Some,
        key_fits(public_inputs, key),
        all_scalars(public_inputs),
        accepts(
            ProofModel {
                a: g1_point(part_a(data))->Some_0,
                b: g2_member(part_b(data))->Some_0,
                c: g1_point(part_c(data))->Some_0,
            },
            public_inputs,
            key,
        ),
{
}

/// The part of a proof that holds the byte at `index` of the buffer.
pub open spec fn part_at(index: int) -> ProofPart {
    if index < 32 {
        ProofPart::A
    } else if index < 96 {
        ProofPart::B
    } else {
        ProofPart::C
    }
}

/// Where the parts of a buffer decode, no decoding error is reported and the
/// engine's answer on exactly those points is the outcome.
pub proof fn lemma_decoded_parts_leave_it_to_the_engine(
    data: Seq<u8>,
    public_inputs: Seq<Seq<u8>>,
    key: KeyModel,
)
    requires
        data.len() == 128,
        g1_point(part_a(data)) is Some,
        g2_member(part_b(data)) is Some,
        g1_point(part_c(data)) is Some,
    ensures
        outcome(data, public_inputs, key) == verdict(
            ProofModel {
                a: g1_point(part_a(data))->Some_0,
                b: g2_member(part_b(data))->Some_0,
                c: g1_point(part_c(data))->Some_0,
            },
            public_inputs,
            key,
        ),
{
}

/// One changed byte touches one part. Where a buffer is accepted and another
/// differs from it at one place only, the two other parts of that buffer
/// decode as before: it is accepted, or rejected by the engine, or fails to
/// decode the part that holds the changed byte. Which of the three it is the
/// engine and the decompressor decide.
pub proof fn lemma_changed_byte_names_its_part(
    data: Seq<u8>,
    changed: Seq<u8>,
    index: int,
    public_inputs: Seq<Seq<u8>>,
    key: KeyModel,
)
    requires
        data.len() == 128,
        changed.len() == 128,
        0 <= index < 128,
        forall|j: int| 0 <= j < 128 && j != index ==> changed[j] == data[j],
        outcome(data, public_inputs, key) is Ok,
    ensures
        ({
            let r = outcome(changed, public_inputs, key);
            r is Ok || r == Err::<(), VerifyError>(VerifyError::ProofRejected) || r == Err::<
                (),
                VerifyError,
            >(VerifyError::Decompression { which: part_at(index) })
        }),
{
    if index >= 32 {
        assert(part_a(changed) =~= part_a(data));
    }
    if index < 32 || index >= 96 {
        assert(part_b(changed) =~= part_b(data));
    }
    if index < 96 {
        assert(part_c(changed) =~= part_c(data));
    }
}

/// Other public inputs for the same buffer and key cannot bring an error of
/// length, of decoding or of construction: where one table of inputs is
/// accepted, a table of the same length is accepted or rejected by the
/// engine. Which of the two it is the engine decides.
pub proof fn lemma_changed_inputs_are_left_to_the_engine(
    data: Seq<u8>,
    public_inputs: Seq<Seq<u8>>,
    other_inputs: Seq<Seq<u8>>,
    key: KeyModel,
)
    requires
        outcome(data, public_inputs, key) is Ok,
        other_inputs.len() == public_inputs.len(),
    ensures
        ({
            let r = outcome(data, other_inputs, key);
            r is Ok || r == Err::<(), VerifyError>(VerifyError::ProofRejected)
        }),
        !all_scalars(other_inputs) ==> outcome(data, other_inputs, key) == Err::<(), VerifyError>(
            VerifyError::ProofRejected,
        ),
{
}

/// With a key that fits the inputs, a buffer of 128 bytes is accepted, or
/// fails to decode, or is rejected by the pairing equation: no other
/// outcome exists for it.
pub proof fn lemma_outcomes_of_a_full_buffer(
    data: Seq<u8>,
    public_inputs: Seq<Seq<u8>>,
    key: KeyModel,
)
    requires
        data.len() == 128,
        key_fits(public_inputs, key),
    ensures
        ({
            let r = outcome(data, public_inputs, key);
            r is Ok || r == Err::<(), VerifyError>(VerifyError::ProofRejected) || (r matches Err(
                VerifyError::Decompression { which },
            ))
        }),
{
}

} // verus!
