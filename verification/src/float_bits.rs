//! Floating-point values carried as raw IEEE-754 bit patterns.

use vstd::prelude::*;

verus! {

/// The sign bit of an IEEE-754 single-precision value.
pub const F32_SIGN_BIT: u32 = 0x8000_0000;

/// Bit pattern of zero.
pub const F32_ZERO: u32 = 0x0000_0000;

/// Bit pattern of one.
pub const F32_ONE: u32 = 0x3F80_0000;

/// Bit pattern of minus one.
pub const F32_MINUS_ONE: u32 = 0xBF80_0000;

/// Bit pattern of one half.
pub const F32_HALF: u32 = 0x3F00_0000;

/// Bit pattern of ten.
pub const F32_TEN: u32 = 0x4120_0000;

/// Bit pattern of thirty-five.
pub const F32_THIRTY_FIVE: u32 = 0x420C_0000;

/// Bit pattern of ninety.
pub const F32_NINETY: u32 = 0x42B4_0000;

/// Bit pattern of one hundred.
pub const F32_ONE_HUNDRED: u32 = 0x42C8_0000;

/// Bit pattern of three hundred and sixty (a full circle in degrees).
pub const F32_THREE_SIXTY: u32 = 0x43B4_0000;

/// Bit pattern of eight hundred and thirty (the upper end of the default
/// spectral wavelength range, in nanometres).
pub const F32_EIGHT_THIRTY: u32 = 0x444F_8000;

/// Bit pattern of the largest finite single-precision value.
pub const F32_MAX: u32 = 0x7F7F_FFFF;

/// An IEEE-754 single-precision value, carried as its raw bit pattern.
///
/// The constructors in this crate never do floating-point arithmetic: they
/// move scalar arguments between a parameter source and entity fields
/// unchanged. The one derived default — a sphere's clipping planes default to
/// plus and minus its radius — is negation, which IEEE-754 defines as an
/// exact flip of the sign bit. Carrying the bits keeps every field bit-exact.
#[derive(Clone, Copy, Debug, PartialEq, Eq, Structural)]
pub struct FloatBits {
    /// The raw IEEE-754 single-precision bit pattern.
    pub bits: u32,
}

impl FloatBits {
    /// The value with the given bit pattern.
    pub fn of(bits: u32) -> (r: FloatBits)
        ensures
            r.bits == bits,
    {
        FloatBits { bits }
    }

    /// The bit pattern of the negated value: the sign bit flipped, every
    /// other bit unchanged.
    pub open spec fn spec_negated(self) -> FloatBits {
        FloatBits { bits: self.bits ^ F32_SIGN_BIT }
    }

    /// Negates the value. IEEE-754 negation is exactly a flip of the sign
    /// bit, so this is total and bit-exact.
    pub fn negated(self) -> (r: FloatBits)
        ensures
            r == self.spec_negated(),
    {
        FloatBits { bits: self.bits ^ F32_SIGN_BIT }
    }
}

} // verus!
