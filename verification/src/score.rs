//! Relevance scores, held as the 32 bits of an IEEE 754 single-precision
//! number so that they can be compared and carried without floating point.

use vstd::prelude::*;

verus! {

/// The bits of a score without its sign bit.
pub open spec fn magnitude_of(bits: u32) -> int {
    if bits >= 0x8000_0000 {
        bits - 0x8000_0000
    } else {
        bits as int
    }
}

/// True when the bits are those of a NaN, which has no place in an order.
pub open spec fn is_nan(bits: u32) -> bool {
    magnitude_of(bits) > 0x7f80_0000
}

/// A number that grows with the score that the bits stand for: of two scores
/// that are numbers, the greater has the greater rank, and the two zeros
/// have the same.
pub open spec fn rank_of(bits: u32) -> int {
    if bits >= 0x8000_0000 {
        -magnitude_of(bits)
    } else {
        magnitude_of(bits)
    }
}

/// The scores come best first, as far as they can be ordered at all: where
/// one of them is a NaN, nothing is said.
pub open spec fn best_first(scores: Seq<u32>) -> bool {
    (forall|k: int| 0 <= k < scores.len() ==> !is_nan(#[trigger] scores[k])) ==> forall|
        i: int,
        j: int,
    | 0 <= i <= j < scores.len() ==> rank_of(#[trigger] scores[i]) >= rank_of(#[trigger] scores[j])
}

} // verus!
