//! Fixed points of the Bandersnatch suite, in their compressed encodings.
//!
//! The suite fixes three points for ring proofs: the point that fills the
//! empty slots of a ring, the point that the prover's sums start from, and
//! the point whose multiples blind the signer's key. They are the same for
//! every ring size.

use vstd::prelude::*;

verus! {

/// The encoding of the suite's padding point.
pub open spec fn padding_encoding() -> Seq<u8> {
    seq![
        146u8, 202, 121, 230, 29, 217, 12, 21, 115, 168, 105, 63, 25, 155, 246, 225, 232, 104, 53,
        204, 113, 92, 220, 249, 63, 94, 242, 34, 86, 0, 35, 170,
    ]
}

/// The encoding of the suite's accumulator base.
pub open spec fn accumulator_base_encoding() -> Seq<u8> {
    seq![
        110u8, 85, 116, 249, 7, 127, 183, 108, 136, 92, 54, 25, 106, 131, 45, 186, 221, 100, 20,
        45, 48, 91, 229, 72, 119, 36, 150, 122, 207, 149, 149, 160,
    ]
}

/// The encoding of the suite's blinding base.
pub open spec fn blinding_base_encoding() -> Seq<u8> {
    seq![
        233u8, 61, 160, 107, 134, 151, 102, 177, 88, 210, 11, 132, 62, 198, 72, 204, 104, 224, 183,
        186, 47, 112, 131, 172, 240, 241, 84, 32, 93, 4, 226, 62,
    ]
}

/// The suite's accumulator base.
pub fn accumulator_base() -> (point: [u8; 32])
    ensures
        point@ == accumulator_base_encoding(),
{
    let point: [u8; 32] = [
        110, 85, 116, 249, 7, 127, 183, 108, 136, 92, 54, 25, 106, 131, 45, 186, 221, 100, 20, 45,
        48, 91, 229, 72, 119, 36, 150, 122, 207, 149, 149, 160,
    ];
    assert(point@ =~= accumulator_base_encoding());
    point
}

/// The suite's blinding base.
pub fn blinding_base() -> (point: [u8; 32])
    ensures
        point@ == blinding_base_encoding(),
{
    let point: [u8; 32] = [
        233, 61, 160, 107, 134, 151, 102, 177, 88, 210, 11, 132, 62, 198, 72, 204, 104, 224, 183,
        186, 47, 112, 131, 172, 240, 241, 84, 32, 93, 4, 226, 62,
    ];
    assert(point@ =~= blinding_base_encoding());
    point
}

} // verus!
