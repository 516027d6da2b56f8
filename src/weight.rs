//! A product weight, held as the bit pattern of a single-precision float.
use vstd::prelude::*;

verus! {

/// True when the IEEE-754 single-precision pattern `bits` encodes a finite
/// number: its exponent field is not all ones.
pub open spec fn is_finite_bits(bits: u32) -> bool {
    (bits >> 23u32) & 0xffu32 != 0xffu32
}

/// A finite weight. The number itself is the single-precision float whose
/// bit pattern is `bits`; arithmetic on it is left to callers.
#[derive(Debug, Clone, Copy, PartialEq, Eq, Structural)]
pub struct Weight {
    bits: u32,
}

impl View for Weight {
    type V = u32;

    closed spec fn view(&self) -> u32 {
        self.bits
    }
}

impl Weight {
    #[verifier::type_invariant]
    spec fn finite(self) -> bool {
        is_finite_bits(self.bits)
    }

    /// The weight with bit pattern `bits`, or `None` when that pattern is an
    /// infinity or a NaN.
    pub fn from_bits(bits: u32) -> (r: Option<Weight>)
        ensures
            r is Some <==> is_finite_bits(bits),
            r matches Some(w) ==> w@ == bits,
    {
        if (bits >> 23u32) & 0xffu32 != 0xffu32 {
            Some(Weight { bits })
        } else {
            None
        }
    }

    /// The bit pattern of this weight.
    pub fn to_bits(&self) -> (r: u32)
        ensures
            r == self@,
            is_finite_bits(r),
    {
        proof {
            use_type_invariant(self);
        }
        self.bits
    }
}

} // verus!
