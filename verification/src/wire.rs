//! The wire format of a proof: 128 bytes, cut at fixed offsets.
//!
//! | bytes      | holds                 |
//! |------------|-----------------------|
//! | `[0, 32)`  | compressed G1 point A |
//! | `[32, 96)` | compressed G2 point B |
//! | `[96, 128)`| compressed G1 point C |

use vstd::prelude::*;
use crate::error::VerifyError;

verus! {

/// Length of a proof on the wire.
pub const PROOF_LEN: usize = 128;

/// A proof as it arrives: three compressed points.
#[derive(Clone, Copy, Debug)]
pub struct CompressedProof {
    pub a: [u8; 32],
    pub b: [u8; 64],
    pub c: [u8; 32],
}

/// A proof as the prover made it: the three affine points A, B and C.
#[derive(Clone, Copy, Debug)]
pub struct Proof {
    pub a: [u8; 64],
    pub b: [u8; 128],
    pub c: [u8; 64],
}

/// The byte strings of a table whose rows are arrays of `M` bytes.
pub open spec fn rows<const M: usize>(table: Seq<[u8; M]>) -> Seq<Seq<u8>> {
    table.map_values(|row: [u8; M]| row@)
}

/// The three affine points of a proof, as byte strings.
pub struct ProofModel {
    pub a: Seq<u8>,
    pub b: Seq<u8>,
    pub c: Seq<u8>,
}

impl View for Proof {
    type V = ProofModel;

    open spec fn view(&self) -> ProofModel {
        ProofModel { a: self.a@, b: self.b@, c: self.c@ }
    }
}

/// The bytes of `data` that hold the compressed point A.
pub open spec fn part_a(data: Seq<u8>) -> Seq<u8> {
    data.subrange(0, 32)
}

/// The bytes of `data` that hold the compressed point B.
pub open spec fn part_b(data: Seq<u8>) -> Seq<u8> {
    data.subrange(32, 96)
}

/// The bytes of `data` that hold the compressed point C.
pub open spec fn part_c(data: Seq<u8>) -> Seq<u8> {
    data.subrange(96, 128)
}

/// Copies the `N` bytes of `data` that begin at `start`.
pub(crate) fn take_bytes<const N: usize>(data: &[u8], start: usize) -> (out: [u8; N])
    requires
        start + N <= data@.len(),
    ensures
        out@ == data@.subrange(start as int, start + N),
{
    let mut out: [u8; N] = [0u8; N];
    let mut i: usize = 0;
    while i < N
        invariant
            i <= N,
            start + N <= data.len(),
            out@.len() == N,
            forall|k: int| 0 <= k < i ==> out@[k] == data@[start + k],
        decreases N - i,
    {
        out[i] = data[start + i];
        i += 1;
    }
    assert(out@ =~= data@.subrange(start as int, start + N));
    out
}

/// Cuts an instruction buffer into the three compressed points of a proof.
///
/// A buffer of any length but 128 is refused at once; one of 128 bytes
/// always splits.
pub fn split_proof(data: &[u8]) -> (r: Result<CompressedProof, VerifyError>)
    ensures
        data@.len() != 128 ==> r == Err::<CompressedProof, VerifyError>(
            VerifyError::BadInstructionLength,
        ),
        data@.len() == 128 ==> r is Ok,
        r matches Ok(p) ==> p.a@ == part_a(data@) && p.b@ == part_b(data@) && p.c@ == part_c(
            data@,
        ),
{
    if data.len() != PROOF_LEN {
        return Err(VerifyError::BadInstructionLength);
    }
    let a: [u8; 32] = take_bytes(data, 0);
    let b: [u8; 64] = take_bytes(data, 32);
    let c: [u8; 32] = take_bytes(data, 96);
    Ok(CompressedProof { a, b, c })
}

} // verus!
