//! Prices. The library carries prices and never computes with them, so a
//! price is kept as the 64-bit pattern of the double-precision number that
//! the catalog or the assistant supplied.

use vstd::prelude::*;

verus! {

/// A price, as the bit pattern of a double-precision number.
#[derive(Clone, Copy, Debug, PartialEq, Eq, Structural)]
pub struct Price {
    pub bits: u64,
}

impl Price {
    /// The price with the given bit pattern.
    pub fn from_bits(bits: u64) -> (price: Price)
        ensures
            price.bits == bits,
    {
        Price { bits }
    }

    /// The bit pattern of this price.
    pub fn to_bits(&self) -> (bits: u64)
        ensures
            bits == self.bits,
    {
        self.bits
    }
}

} // verus!
