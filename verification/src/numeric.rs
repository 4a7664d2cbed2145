//! The numeric payload of a record (an area, a quantity): a 64-bit IEEE-754
//! value carried opaquely by its bit pattern. The rules read nothing of it
//! but its sign and whether it is a number at all.

use vstd::prelude::*;

verus! {

/// A 64-bit IEEE-754 value, held as its bit pattern.
#[derive(Clone, Copy, Debug, PartialEq, Eq, Structural)]
pub struct Numeric64 {
    bits: u64,
}

impl View for Numeric64 {
    type V = u64;

    closed spec fn view(&self) -> u64 {
        self.bits
    }
}

/// The bit pattern encodes a NaN: exponent all ones, fraction not zero.
pub open spec fn spec_is_nan(bits: u64) -> bool {
    (bits >> 52) & 0x7ff == 0x7ff && bits & 0xf_ffff_ffff_ffff != 0
}

/// The encoded value compares greater than or equal to zero: it is a number
/// and either its sign bit is clear or it is negative zero.
pub open spec fn spec_non_negative(bits: u64) -> bool {
    bits == 0x8000_0000_0000_0000 || (bits >> 63 == 0 && !spec_is_nan(bits))
}

impl Numeric64 {
    pub fn from_bits(bits: u64) -> (r: Numeric64)
        ensures
            r@ == bits,
    {
        Numeric64 { bits }
    }

    pub fn to_bits(&self) -> (b: u64)
        ensures
            b == self@,
    {
        self.bits
    }

    /// Whether the value is at least zero, the rule the records require of
    /// their areas and quantities.
    pub fn is_non_negative(&self) -> (r: bool)
        ensures
            r == spec_non_negative(self@),
    {
        self.bits == 0x8000_0000_0000_0000 || (self.bits >> 63 == 0 && !((self.bits >> 52) & 0x7ff
            == 0x7ff && self.bits & 0xf_ffff_ffff_ffff != 0))
    }
}

} // verus!
