//! Positions in space, held as bit patterns.
//!
//! A coordinate is an IEEE 754 binary32 number. The library never computes
//! with coordinates; it carries them, compares them bit for bit and tells
//! finite ones from the rest. Each coordinate is therefore held as the 32
//! bits of its encoding.

use vstd::prelude::*;

verus! {

/// Mask of the eight exponent bits of a binary32 encoding.
pub const EXPONENT_MASK: u32 = 0x7f80_0000;

/// Whether `bits` encodes a finite number: neither an infinity nor a NaN,
/// which are the encodings whose exponent bits are all set.
pub open spec fn is_finite_bits(bits: u32) -> bool {
    bits & EXPONENT_MASK != EXPONENT_MASK
}

/// Whether `bits` encodes a finite number.
pub fn finite_bits(bits: u32) -> (finite: bool)
    ensures
        finite == is_finite_bits(bits),
{
    bits & EXPONENT_MASK != EXPONENT_MASK
}

/// A point in space. Each field is the binary32 encoding of one coordinate.
#[derive(Clone, Copy, Debug, PartialEq, Eq, Hash, Structural)]
pub struct Position {
    pub x: u32,
    pub y: u32,
    pub z: u32,
}

impl Position {
    /// All three coordinates are finite numbers.
    pub open spec fn valid(self) -> bool {
        is_finite_bits(self.x) && is_finite_bits(self.y) && is_finite_bits(self.z)
    }

    /// The point with the given coordinate encodings.
    pub fn new(x: u32, y: u32, z: u32) -> (p: Self)
        ensures
            p == (Position { x, y, z }),
    {
        Position { x, y, z }
    }

    /// Whether every coordinate is a finite number.
    pub fn is_valid(&self) -> (ok: bool)
        ensures
            ok == self.valid(),
    {
        finite_bits(self.x) && finite_bits(self.y) && finite_bits(self.z)
    }
}

} // verus!
