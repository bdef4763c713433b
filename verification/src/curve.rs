//! Compressed and affine encodings of BN254 points, and the step from one to
//! the other.
//!
//! A compressed G1 point is the 32 big-endian bytes of its x-coordinate with
//! the sign of y in the top bits; a compressed G2 point is the same over 64
//! bytes. The affine encodings hold both coordinates: 64 bytes for G1 and
//! 128 bytes for G2, which are all zero for the identity. The arithmetic
//! that recovers y is done by `groth16_solana`, and membership in the
//! prime-order subgroup of G2 is tested by `ark_bn254`; this module gives
//! their results a name, puts the steps in order and classifies the
//! failures. G1 has cofactor 1, so a G1 point that decodes needs no such
//! test. The negative of a G1 point keeps x and negates y in the base field.

use vstd::prelude::*;
use ark_bn254::G2Affine;
use ark_serialize::{CanonicalDeserialize, Compress, Validate};
use groth16_solana::decompression::{decompress_g1, decompress_g2};
use groth16_solana::errors::Groth16Error;
use crate::error::{classified, ProofPart, VerifyError};
use crate::field::{
    base_modulus, be_value, lemma_negation_turns_back, negate_coordinate, negated_coordinate,
};
use crate::wire::{take_bytes, CompressedProof, Proof, ProofModel};

verus! {

/// The affine G1 point that 32 compressed bytes stand for, as `decompress_g1`
/// of `groth16_solana` computes it, or `None` where it reports a failure.
pub uninterp spec fn g1_point(compressed: Seq<u8>) -> Option<Seq<u8>>;

/// The affine G2 point that 64 compressed bytes stand for, as `decompress_g2`
/// of `groth16_solana` computes it, or `None` where it reports a failure.
pub uninterp spec fn g2_point(compressed: Seq<u8>) -> Option<Seq<u8>>;

/// `groth16_solana::decompression::decompress_g1`. Trusted: the call depends
/// on its 32 input bytes alone, so its outcome is `g1_point` of them.
pub assume_specification[ decompress_g1 ](g1_bytes: &[u8; 32]) -> (r: Result<[u8; 64], Groth16Error>)
    ensures
        match r {
            Ok(point) => g1_point(g1_bytes@) == Some(point@),
            Err(_) => g1_point(g1_bytes@) is None,
        },
;

/// `groth16_solana::decompression::decompress_g2`. Trusted: the call depends
/// on its 64 input bytes alone, so its outcome is `g2_point` of them.
pub assume_specification[ decompress_g2 ](g2_bytes: &[u8; 64]) -> (r: Result<[u8; 128], Groth16Error>)
    ensures
        match r {
            Ok(point) => g2_point(g2_bytes@) == Some(point@),
            Err(_) => g2_point(g2_bytes@) is None,
        },
;

/// Whether `ark_bn254`, asked to validate, takes 128 bytes for the
/// uncompressed encoding of a G2 point: two coordinates in its own
/// little-endian layout that lie on the twisted curve and in the
/// prime-order subgroup, or an encoding that its flag marks as the identity.
pub uninterp spec fn g2_validates(le_point: Seq<u8>) -> bool;

/// `CanonicalDeserialize::deserialize_with_mode` of `ark_serialize`, as
/// `ark_bn254::G2Affine` has it, uncompressed and with validation, its point
/// dropped. Trusted: the call depends on the 128 bytes alone, so whether it
/// succeeds is `g2_validates` of them.
#[verifier::external_body]
fn validate_g2(le_point: &[u8; 128]) -> (ok: bool)
    ensures
        ok == g2_validates(le_point@),
{
    G2Affine::deserialize_with_mode(&le_point[..], Compress::No, Validate::Yes).is_ok()
}

/// Whether every byte of an encoding is zero, as in that of the identity.
pub open spec fn is_identity(point: Seq<u8>) -> bool {
    forall|i: int| 0 <= i < point.len() ==> point[i] == 0
}

/// The little-endian layout of an affine G2 point: each coordinate, 64
/// bytes, back to front. This turns the order of the two field elements
/// of a coordinate as well as the order of their bytes.
pub open spec fn little_endian_g2(point: Seq<u8>) -> Seq<u8> {
    Seq::new(128, |i: int| if i < 64 { point[63 - i] } else { point[191 - i] })
}

/// Whether an affine G2 encoding stands for a member of the prime-order
/// subgroup: the identity, or a point that passes validation.
pub open spec fn in_g2(point: Seq<u8>) -> bool {
    is_identity(point) || g2_validates(little_endian_g2(point))
}

/// Tests whether every byte of `point` is zero.
fn all_zero(point: &[u8; 128]) -> (zero: bool)
    ensures
        zero == is_identity(point@),
{
    let mut i: usize = 0;
    while i < 128
        invariant
            i <= 128,
            forall|k: int| 0 <= k < i ==> point@[k] == 0,
        decreases 128 - i,
    {
        if point[i] != 0 {
            return false;
        }
        i += 1;
    }
    true
}

/// Lays an affine G2 point out in little-endian order.
fn to_little_endian_g2(point: &[u8; 128]) -> (out: [u8; 128])
    ensures
        out@ == little_endian_g2(point@),
{
    let mut out: [u8; 128] = [0u8; 128];
    let mut i: usize = 0;
    while i < 64
        invariant
            i <= 64,
            forall|k: int| 0 <= k < i ==> out@[k] == point@[63 - k],
            forall|k: int| 64 <= k < 64 + i ==> out@[k] == point@[191 - k],
        decreases 64 - i,
    {
        out[i] = point[63 - i];
        out[64 + i] = point[127 - i];
        i += 1;
    }
    assert(out@ =~= little_endian_g2(point@));
    out
}

/// Tests whether an affine G2 encoding stands for a member of the
/// prime-order subgroup.
pub fn is_in_g2(point: &[u8; 128]) -> (ok: bool)
    ensures
        ok == in_g2(point@),
{
    if all_zero(point) {
        true
    } else {
        let le_point = to_little_endian_g2(point);
        validate_g2(&le_point)
    }
}

/// The affine encoding of the negative of a G1 point: x kept, y replaced by
/// its negative in the base field. The identity, all zero, is its own
/// negative.
pub open spec fn negated_g1(point: Seq<u8>) -> Seq<u8> {
    point.subrange(0, 32) + negated_coordinate(point.subrange(32, 64))
}

/// A point and its negative share x, and each is the negative of the other.
/// They differ exactly where y is a coordinate other than zero.
pub proof fn lemma_negative_of_the_negative(point: Seq<u8>)
    requires
        point.len() == 64,
    ensures
        negated_g1(point).len() == 64,
        negated_g1(point).subrange(0, 32) == point.subrange(0, 32),
        negated_g1(negated_g1(point)) == point,
        negated_g1(point) != point <==> 0 < be_value(point.subrange(32, 64)) < base_modulus(),
{
    let x = point.subrange(0, 32);
    let y = point.subrange(32, 64);
    let negative = negated_g1(point);
    lemma_negation_turns_back(y);
    assert(negative.subrange(0, 32) =~= x);
    assert(negative.subrange(32, 64) =~= negated_coordinate(y));
    assert(x + y =~= point);
    if negative == point {
        assert(negated_coordinate(y) == y);
    }
}

/// Negates a G1 point in its affine encoding.
pub fn negate_g1(point: &[u8; 64]) -> (out: [u8; 64])
    ensures
        out@ == negated_g1(point@),
{
    let y: [u8; 32] = take_bytes(point.as_slice(), 32);
    let negative = negate_coordinate(&y);
    let mut out: [u8; 64] = *point;
    let mut i: usize = 0;
    while i < 32
        invariant
            i <= 32,
            forall|k: int| 0 <= k < 32 ==> out@[k] == point@[k],
            forall|k: int| 0 <= k < i ==> out@[32 + k] == negative@[k],
        decreases 32 - i,
    {
        out[32 + i] = negative[i];
        i += 1;
    }
    assert(out@ =~= negated_g1(point@));
    out
}

/// What decoding the compressed point B comes to: an affine point of the
/// prime-order subgroup, or nothing.
pub open spec fn g2_member(compressed: Seq<u8>) -> Option<Seq<u8>> {
    match g2_point(compressed) {
        Some(point) if in_g2(point) => Some(point),
        _ => None,
    }
}

/// What decompressing the three points of a proof comes to: the affine
/// points, or the error that names the first point, in the order A, B, C,
/// that does not decode.
pub open spec fn decompressed(a: Seq<u8>, b: Seq<u8>, c: Seq<u8>) -> Result<
    ProofModel,
    VerifyError,
> {
    match g1_point(a) {
        None => Err(VerifyError::Decompression { which: ProofPart::A }),
        Some(pa) => match g2_member(b) {
            None => Err(VerifyError::Decompression { which: ProofPart::B }),
            Some(pb) => match g1_point(c) {
                None => Err(VerifyError::Decompression { which: ProofPart::C }),
                Some(pc) => Ok(ProofModel { a: pa, b: pb, c: pc }),
            },
        },
    }
}

/// Whatever decodes as B is a member of the prime-order subgroup. A point
/// that the decompressor recovers but that lies outside the subgroup makes
/// decompression fail, whatever C is: with the error that names B, where A
/// decodes.
pub proof fn lemma_decoded_b_is_in_subgroup(a: Seq<u8>, b: Seq<u8>, c: Seq<u8>)
    ensures
        decompressed(a, b, c) matches Ok(proof) ==> in_g2(proof.b),
        g2_point(b) matches Some(point) && !in_g2(point) ==> decompressed(a, b, c) is Err,
        g1_point(a) is Some && (g2_point(b) matches Some(point) && !in_g2(point))
            ==> decompressed(a, b, c) == Err::<ProofModel, VerifyError>(
            VerifyError::Decompression { which: ProofPart::B },
        ),
{
}

/// Recovers the affine points of a proof from their compressed encodings.
///
/// The points are taken in the order A, B, C, and the first that does not
/// decode ends the call with the error that names it. B decodes only to a
/// member of the prime-order subgroup: a point that lies on the curve but
/// outside the subgroup is refused here, not handed on.
pub fn decompress_proof(compressed: &CompressedProof) -> (r: Result<Proof, VerifyError>)
    ensures
        match decompressed(compressed.a@, compressed.b@, compressed.c@) {
            Ok(model) => r matches Ok(proof) && proof@ == model,
            Err(e) => r == Err::<Proof, VerifyError>(e),
        },
        r matches Ok(proof) ==> in_g2(proof.b@),
{
    let a = classified(
        decompress_g1(&compressed.a),
        VerifyError::Decompression { which: ProofPart::A },
    )?;
    let b = classified(
        decompress_g2(&compressed.b),
        VerifyError::Decompression { which: ProofPart::B },
    )?;
    if !is_in_g2(&b) {
        return Err(VerifyError::Decompression { which: ProofPart::B });
    }
    let c = classified(
        decompress_g1(&compressed.c),
        VerifyError::Decompression { which: ProofPart::C },
    )?;
    Ok(Proof { a, b, c })
}

} // verus!
