//! Real-valued quantities.

use vstd::prelude::*;

verus! {

/// A real-valued quantity (a coordinate, an axis position, a time in seconds),
/// held as the 64 bits of its IEEE 754 double-precision encoding.
///
/// The events carry such quantities and never compute with them, so two
/// scalars are equal exactly when their encodings are.
#[derive(Copy, Clone, PartialEq, Eq, Debug, Hash, Structural)]
pub struct Scalar {
    /// The encoding, sign bit first.
    pub bits: u64,
}

impl Scalar {
    /// The scalar with the given encoding.
    pub fn from_bits(bits: u64) -> (scalar: Scalar)
        ensures
            scalar == (Scalar { bits }),
    {
        Scalar { bits }
    }

    /// The encoding of this scalar.
    pub fn to_bits(self) -> (bits: u64)
        ensures
            bits == self.bits,
    {
        self.bits
    }
}

} // verus!
