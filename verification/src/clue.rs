//! The four clue codes and their order.

use vstd::prelude::*;

verus! {

/// Nothing is known.
pub const RES_DEFAULT: u8 = 0;

/// The letter is not in the hidden word, or all its copies are accounted for.
pub const RES_WRONG: u8 = 1;

/// The letter is in the hidden word, at another position.
pub const RES_PRESENT: u8 = 2;

/// The letter is at this position in the hidden word.
pub const RES_CORRECT: u8 = 3;

/// `r` is one of the four codes. The codes are ordered as numbers:
/// `RES_DEFAULT < RES_WRONG < RES_PRESENT < RES_CORRECT`.
pub open spec fn is_clue(r: u8) -> bool {
    r <= RES_CORRECT
}

/// The greater of two codes.
pub open spec fn better(a: u8, b: u8) -> u8 {
    if a >= b {
        a
    } else {
        b
    }
}

/// Computes [`better`].
pub fn merge(a: u8, b: u8) -> (r: u8)
    ensures
        r == better(a, b),
{
    if a >= b {
        a
    } else {
        b
    }
}

/// Five codes, all `RES_CORRECT`.
pub open spec fn all_correct(r: Seq<u8>) -> bool {
    r =~= Seq::new(5, |i: int| RES_CORRECT)
}

/// Decides [`all_correct`].
pub fn is_all_correct(r: &[u8; 5]) -> (b: bool)
    ensures
        b == all_correct(r@),
{
    r[0] == RES_CORRECT && r[1] == RES_CORRECT && r[2] == RES_CORRECT && r[3] == RES_CORRECT
        && r[4] == RES_CORRECT
}

} // verus!
