//! Token masks: from the engine's bits to one byte per vocabulary entry.

use vstd::prelude::*;
use crate::engine::{bits_of, is_allowed, mask_len};

verus! {

/// Whether the bits admit a token: the token lies within them and its bit is
/// set.
pub open spec fn admits(bits: Seq<bool>, token: u32) -> bool {
    token < bits.len() && bits[token as int]
}

/// The byte of entry `i` of a dense mask: 1 where `i` is a token id that the
/// bits admit, else 0.
pub open spec fn entry(bits: Seq<bool>, i: int) -> u8 {
    if 0 <= i <= u32::MAX && admits(bits, i as u32) {
        1u8
    } else {
        0u8
    }
}

/// The dense mask of the given length.
pub open spec fn dense(bits: Seq<bool>, size: usize) -> Seq<u8> {
    Seq::new(size as nat, |i: int| entry(bits, i))
}

/// Whether a mask admits a token. A token beyond the mask is not admitted.
pub fn allows(mask: &llguidance::toktrie::SimpleVob, token: u32) -> (r: bool)
    ensures
        r == admits(bits_of(*mask), token),
{
    (token as usize) < mask_len(mask) && is_allowed(mask, token)
}

/// Writes a mask out as one byte per vocabulary entry, 1 for an admitted
/// token and 0 for any other.
pub fn mask_bytes(mask: &llguidance::toktrie::SimpleVob, size: usize) -> (r: Vec<u8>)
    ensures
        r@ == dense(bits_of(*mask), size),
{
    let mut bytes: Vec<u8> = Vec::new();
    let mut i: usize = 0;
    while i < size
        invariant
            i <= size,
            bytes@ == dense(bits_of(*mask), i),
        decreases size - i,
    {
        let admitted = i <= u32::MAX as usize && allows(mask, i as u32);
        bytes.push(if admitted { 1u8 } else { 0u8 });
        i += 1;
    }
    bytes
}

} // verus!
