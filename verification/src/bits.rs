//! Single-bit views of the raw register words.
//!
//! The register models carry their raw word and name each flag by a mask; the
//! two helper pairs below are the common vocabulary of those models: reading
//! the bit under a mask, and driving it to a value while leaving every other
//! bit unchanged.

use vstd::prelude::*;

verus! {

/// Whether the bit under `mask` is set in `bits`.
pub open spec fn spec_bit8(bits: u8, mask: u8) -> bool {
    bits & mask != 0
}

/// `bits` with the bit under `mask` driven to `value` and every other bit
/// unchanged.
pub open spec fn spec_with_bit8(bits: u8, mask: u8, value: bool) -> u8 {
    if value {
        bits | mask
    } else {
        bits & !mask
    }
}

/// Whether the bit under `mask` is set in `bits`.
pub open spec fn spec_bit16(bits: u16, mask: u16) -> bool {
    bits & mask != 0
}

/// `bits` with the bit under `mask` driven to `value` and every other bit
/// unchanged.
pub open spec fn spec_with_bit16(bits: u16, mask: u16, value: bool) -> u16 {
    if value {
        bits | mask
    } else {
        bits & !mask
    }
}

} // verus!
