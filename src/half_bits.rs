//! The brain-float type of the `half` crate, seen through its 16-bit pattern.

use vstd::prelude::*;

verus! {

/// `half::bf16`, held opaque: only its bit pattern is observed.
#[verifier::external_type_specification]
#[verifier::external_body]
pub struct ExBf16(half::bf16);

/// The bit pattern that `half::bf16::to_bits` returns for a value.
pub uninterp spec fn bf16_bits(x: half::bf16) -> u16;

/// Relies on `half::bf16::to_bits`: the raw 16-bit pattern of the value.
pub assume_specification[ half::bf16::to_bits ](x: half::bf16) -> (r: u16)
    ensures
        r == bf16_bits(x),
;

/// Relies on `half::bf16::from_bits`: the value holds exactly the given pattern.
pub assume_specification[ half::bf16::from_bits ](bits: u16) -> (r: half::bf16)
    ensures
        bf16_bits(r) == bits,
;

} // verus!
