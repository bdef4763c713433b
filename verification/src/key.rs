//! Verifying keys, and the key and public inputs of the embedded circuit.

use vstd::prelude::*;
use crate::field::{all_scalars, is_scalar, lemma_scalar_by_leading_byte};
use crate::wire::rows;

verus! {

/// The public parameters of a circuit, each point in its affine encoding.
///
/// The fields are those of `Groth16Verifyingkey` of `groth16_solana`, under
/// its names. Whether a key fits a vector of public inputs is decided by
/// `vk_ic` alone: it holds one point for the constant term and one for each
/// input.
#[derive(Clone, Copy, Debug)]
pub struct VerifyingKey<'a> {
    /// The count that the key was written with. It is carried along and
    /// decides nothing.
    pub nr_pubinputs: usize,
    /// The G1 point alpha.
    pub vk_alpha_g1: [u8; 64],
    /// The G2 point beta.
    pub vk_beta_g2: [u8; 128],
    /// The G2 point gamma.
    pub vk_gamme_g2: [u8; 128],
    /// The G2 point delta.
    pub vk_delta_g2: [u8; 128],
    /// The G1 points `IC[0], ..., IC[n]`.
    pub vk_ic: &'a [[u8; 64]],
}

/// The points of a key, as byte strings.
pub struct KeyModel {
    pub alpha: Seq<u8>,
    pub beta: Seq<u8>,
    pub gamma: Seq<u8>,
    pub delta: Seq<u8>,
    pub ic: Seq<Seq<u8>>,
}

impl<'a> View for VerifyingKey<'a> {
    type V = KeyModel;

    open spec fn view(&self) -> KeyModel {
        KeyModel {
            alpha: self.vk_alpha_g1@,
            beta: self.vk_beta_g2@,
            gamma: self.vk_gamme_g2@,
            delta: self.vk_delta_g2@,
            ic: rows(self.vk_ic@),
        }
    }
}

/// The point alpha of the embedded key.
pub const VK_ALPHA_G1: [u8; 64] = [
    45, 77, 154, 167, 227, 2, 217, 223, 65, 116, 157, 85, 7, 148, 157, 5, 219, 234, 51, 251,
    177, 108, 100, 59, 34, 245, 153, 162, 190, 109, 242, 226, 20, 190, 221, 80, 60, 55, 206,
    176, 97, 216, 236, 96, 32, 159, 227, 69, 206, 137, 131, 10, 25, 35, 3, 1, 240, 118, 202,
    255, 0, 77, 25, 38,
];

/// The point beta of the embedded key.
pub const VK_BETA_G2: [u8; 128] = [
    9, 103, 3, 47, 203, 247, 118, 209, 175, 201, 133, 248, 136, 119, 241, 130, 211, 132, 128,
    166, 83, 242, 222, 202, 169, 121, 76, 188, 59, 243, 6, 12, 14, 24, 120, 71, 173, 76, 121,
    131, 116, 208, 214, 115, 43, 245, 1, 132, 125, 214, 139, 192, 224, 113, 36, 30, 2, 19, 188,
    127, 193, 61, 183, 171, 48, 76, 251, 209, 224, 138, 112, 74, 153, 245, 232, 71, 217, 63,
    140, 60, 170, 253, 222, 196, 107, 122, 13, 55, 157, 166, 154, 77, 17, 35, 70, 167, 23, 57,
    193, 177, 164, 87, 168, 199, 49, 49, 35, 210, 77, 47, 145, 146, 248, 150, 183, 198, 62,
    234, 5, 169, 213, 127, 6, 84, 122, 208, 206, 200,
];

/// The point gamma of the embedded key.
pub const VK_GAMMA_G2: [u8; 128] = [
    25, 142, 147, 147, 146, 13, 72, 58, 114, 96, 191, 183, 49, 251, 93, 37, 241, 170, 73, 51,
    53, 169, 231, 18, 151, 228, 133, 183, 174, 243, 18, 194, 24, 0, 222, 239, 18, 31, 30, 118,
    66, 106, 0, 102, 94, 92, 68, 121, 103, 67, 34, 212, 247, 94, 218, 221, 70, 222, 189, 92,
    217, 146, 246, 237, 9, 6, 137, 208, 88, 95, 240, 117, 236, 158, 153, 173, 105, 12, 51, 149,
    188, 75, 49, 51, 112, 179, 142, 243, 85, 172, 218, 220, 209, 34, 151, 91, 18, 200, 94, 165,
    219, 140, 109, 235, 74, 171, 113, 128, 141, 203, 64, 143, 227, 209, 231, 105, 12, 67, 211,
    123, 76, 230, 204, 1, 102, 250, 125, 170,
];

/// The point delta of the embedded key.
pub const VK_DELTA_G2: [u8; 128] = [
    25, 142, 147, 147, 146, 13, 72, 58, 114, 96, 191, 183, 49, 251, 93, 37, 241, 170, 73, 51,
    53, 169, 231, 18, 151, 228, 133, 183, 174, 243, 18, 194, 24, 0, 222, 239, 18, 31, 30, 118,
    66, 106, 0, 102, 94, 92, 68, 121, 103, 67, 34, 212, 247, 94, 218, 221, 70, 222, 189, 92,
    217, 146, 246, 237, 9, 6, 137, 208, 88, 95, 240, 117, 236, 158, 153, 173, 105, 12, 51, 149,
    188, 75, 49, 51, 112, 179, 142, 243, 85, 172, 218, 220, 209, 34, 151, 91, 18, 200, 94, 165,
    219, 140, 109, 235, 74, 171, 113, 128, 141, 203, 64, 143, 227, 209, 231, 105, 12, 67, 211,
    123, 76, 230, 204, 1, 102, 250, 125, 170,
];

/// The ten `IC` points of the embedded key.
pub const VK_IC: [[u8; 64]; 10] = [
    [
        3, 183, 175, 189, 219, 73, 183, 28, 132, 200, 83, 8, 65, 22, 184, 81, 82, 36, 181, 186,
        25, 216, 234, 25, 151, 2, 235, 194, 13, 223, 32, 145, 15, 37, 113, 122, 93, 59, 91, 25,
        236, 104, 227, 238, 58, 154, 67, 250, 186, 91, 93, 141, 18, 241, 150, 59, 202, 48, 179,
        1, 53, 207, 155, 199,
    ],
    [
        46, 253, 85, 84, 166, 240, 71, 175, 111, 174, 244, 62, 87, 96, 235, 196, 208, 85, 186,
        47, 163, 237, 53, 204, 176, 190, 62, 201, 189, 216, 132, 71, 6, 91, 228, 97, 74, 5, 0,
        255, 147, 113, 161, 152, 238, 177, 78, 81, 111, 13, 142, 220, 24, 133, 27, 149, 66,
        115, 34, 87, 224, 237, 44, 162,
    ],
    [
        29, 157, 232, 254, 238, 178, 82, 15, 152, 205, 175, 129, 90, 108, 114, 60, 82, 162, 37,
        234, 115, 69, 191, 125, 212, 85, 176, 176, 113, 41, 23, 84, 8, 229, 196, 41, 191, 243,
        112, 105, 166, 75, 113, 160, 140, 34, 139, 179, 53, 180, 245, 195, 5, 24, 42, 18, 82,
        60, 173, 192, 67, 149, 211, 250,
    ],
    [
        18, 4, 92, 105, 55, 33, 222, 133, 144, 185, 99, 131, 167, 143, 52, 120, 44, 79, 164,
        63, 119, 223, 199, 154, 26, 86, 22, 208, 50, 53, 159, 65, 14, 171, 53, 159, 255, 133,
        91, 30, 162, 209, 152, 18, 251, 112, 105, 90, 65, 234, 44, 4, 42, 173, 31, 230, 229,
        137, 177, 112, 241, 142, 62, 176,
    ],
    [
        13, 117, 56, 250, 131, 38, 119, 205, 221, 228, 32, 185, 236, 82, 102, 29, 198, 53, 117,
        151, 19, 10, 255, 211, 41, 210, 72, 221, 79, 107, 251, 150, 35, 187, 30, 32, 198, 17,
        220, 4, 68, 10, 71, 51, 31, 169, 4, 174, 10, 38, 227, 229, 193, 129, 150, 76, 94, 224,
        182, 13, 166, 65, 175, 89,
    ],
    [
        21, 167, 160, 214, 213, 132, 208, 197, 115, 195, 129, 111, 129, 38, 56, 52, 41, 57, 72,
        249, 50, 187, 184, 49, 240, 228, 142, 147, 187, 96, 96, 102, 34, 163, 43, 218, 199,
        187, 250, 245, 119, 151, 237, 67, 231, 70, 236, 67, 157, 181, 216, 174, 25, 82, 120,
        255, 191, 89, 230, 165, 179, 241, 188, 218,
    ],
    [
        4, 136, 219, 130, 55, 89, 21, 224, 41, 30, 53, 234, 66, 160, 129, 174, 154, 139, 151,
        33, 163, 221, 150, 192, 171, 102, 241, 161, 48, 130, 31, 175, 6, 47, 176, 127, 13, 8,
        36, 228, 239, 219, 6, 158, 22, 31, 22, 162, 91, 196, 132, 188, 156, 228, 30, 1, 178,
        246, 197, 186, 236, 249, 236, 147,
    ],
    [
        9, 41, 120, 80, 67, 24, 240, 221, 136, 156, 137, 182, 168, 17, 176, 118, 119, 72, 170,
        188, 227, 31, 15, 22, 252, 37, 198, 154, 195, 163, 64, 125, 37, 211, 235, 67, 249, 133,
        45, 90, 162, 9, 173, 19, 80, 154, 208, 173, 221, 203, 206, 254, 81, 197, 104, 26, 177,
        78, 86, 210, 51, 116, 60, 87,
    ],
    [
        3, 41, 86, 208, 125, 147, 53, 187, 213, 220, 195, 141, 216, 40, 92, 137, 70, 210, 168,
        103, 105, 236, 85, 37, 165, 209, 246, 75, 122, 251, 75, 93, 28, 108, 154, 181, 15, 16,
        35, 88, 65, 211, 8, 11, 123, 84, 185, 187, 184, 1, 83, 141, 67, 46, 241, 222, 232, 135,
        59, 44, 152, 217, 237, 106,
    ],
    [
        34, 98, 189, 118, 119, 197, 102, 193, 36, 150, 200, 143, 226, 60, 0, 239, 21, 40, 5,
        156, 73, 7, 247, 14, 249, 157, 2, 241, 181, 208, 144, 0, 34, 45, 86, 133, 116, 53, 235,
        160, 107, 36, 195, 125, 122, 10, 206, 88, 85, 166, 62, 150, 65, 159, 130, 7, 255, 224,
        227, 229, 206, 138, 68, 71,
    ],
];

/// The nine public inputs of the embedded circuit, each a big-endian scalar.
pub const PUBLIC_INPUTS: [[u8; 32]; 9] = [
    [
        34, 238, 251, 182, 234, 248, 214, 189, 46, 67, 42, 25, 71, 58, 145, 58, 61, 28, 116, 110,
        60, 17, 82, 149, 178, 187, 160, 211, 37, 226, 174, 231,
    ],
    [
        0, 0, 0, 0, 0, 0, 0, 0, 0, 0, 0, 0, 0, 0, 0, 0, 0, 0, 0, 0, 0, 0, 0, 0, 0, 0, 0, 0, 51,
        152, 17, 147,
    ],
    [
        4, 247, 199, 87, 230, 85, 103, 90, 28, 183, 95, 100, 200, 46, 3, 158, 247, 196, 173, 146,
        207, 167, 108, 33, 199, 18, 13, 204, 198, 101, 223, 186,
    ],
    [
        0, 0, 0, 0, 0, 0, 0, 0, 0, 0, 0, 0, 0, 0, 0, 0, 0, 0, 0, 0, 0, 0, 0, 0, 0, 0, 0, 0, 7, 49,
        65, 41,
    ],
    [
        7, 130, 55, 65, 197, 232, 175, 217, 44, 151, 149, 225, 75, 86, 158, 105, 43, 229, 65, 87,
        51, 150, 168, 243, 176, 175, 11, 203, 180, 149, 72, 103,
    ],
    [
        46, 93, 177, 62, 42, 66, 223, 153, 51, 193, 146, 49, 154, 41, 69, 198, 224, 13, 87, 80,
        222, 171, 37, 141, 0, 1, 50, 172, 18, 28, 213, 213,
    ],
    [
        40, 141, 45, 3, 180, 200, 250, 112, 108, 94, 35, 143, 82, 63, 125, 9, 147, 37, 191, 75, 62,
        221, 138, 20, 166, 151, 219, 237, 254, 58, 230, 189,
    ],
    [
        33, 100, 143, 241, 11, 251, 73, 141, 229, 57, 129, 168, 83, 23, 235, 147, 138, 225, 177,
        250, 13, 97, 226, 162, 6, 232, 52, 95, 128, 84, 90, 202,
    ],
    [
        25, 178, 1, 208, 219, 169, 222, 123, 113, 202, 165, 77, 183, 98, 103, 237, 187, 93, 178,
        95, 169, 156, 38, 100, 125, 218, 104, 94, 104, 119, 13, 21,
    ],
];

/// The points of the embedded key.
pub open spec fn embedded_key() -> KeyModel {
    KeyModel {
        alpha: VK_ALPHA_G1@,
        beta: VK_BETA_G2@,
        gamma: VK_GAMMA_G2@,
        delta: VK_DELTA_G2@,
        ic: rows(VK_IC@),
    }
}

/// The public inputs of the embedded circuit, as byte strings.
pub open spec fn embedded_inputs() -> Seq<Seq<u8>> {
    rows(PUBLIC_INPUTS@)
}

/// The verifying key of the embedded circuit.
pub fn verifying_key() -> (vk: VerifyingKey<'static>)
    ensures
        vk@ == embedded_key(),
        vk.nr_pubinputs == 10,
{
    VerifyingKey {
        nr_pubinputs: 10,
        vk_alpha_g1: VK_ALPHA_G1,
        vk_beta_g2: VK_BETA_G2,
        vk_gamme_g2: VK_GAMMA_G2,
        vk_delta_g2: VK_DELTA_G2,
        vk_ic: &VK_IC,
    }
}

/// Every public input of the embedded circuit is a scalar: each begins with
/// a byte below that of the modulus.
pub proof fn lemma_embedded_inputs_are_scalars()
    ensures
        all_scalars(embedded_inputs()),
{
    let table = embedded_inputs();
    assert forall|i: int| 0 <= i < table.len() implies is_scalar(#[trigger] table[i]) by {
        assert(table[i] == PUBLIC_INPUTS@[i]@);
        lemma_scalar_by_leading_byte(table[i]);
    }
}

} // verus!
