use vstd::prelude::*;

verus! {

/// A 32-bit IEEE-754 binary floating-point value, held as its bit pattern
/// (as given by `f32::to_bits`).
#[derive(Clone, Copy, Debug)]
pub struct Float32 {
    pub bits: u32,
}

/// A 64-bit IEEE-754 binary floating-point value, held as its bit pattern
/// (as given by `f64::to_bits`).
#[derive(Clone, Copy, Debug)]
pub struct Float64 {
    pub bits: u64,
}

/// The sign bit of a 32-bit float.
pub const SIGN_BIT_32: u32 = 0x8000_0000;

/// The bit pattern of positive infinity as a 32-bit float; any larger
/// magnitude is a NaN.
pub const INFINITY_32: u32 = 0x7F80_0000;

/// The sign bit of a 64-bit float.
pub const SIGN_BIT_64: u64 = 0x8000_0000_0000_0000;

impl Float32 {
    /// The sign bit is set.
    pub open spec fn sign(self) -> bool {
        self.bits >= SIGN_BIT_32
    }

    /// The bits below the sign bit: exponent and mantissa.
    pub open spec fn magnitude(self) -> int {
        (self.bits as int) % (SIGN_BIT_32 as int)
    }

    /// All exponent bits are set and the mantissa is not zero.
    pub open spec fn spec_is_nan(self) -> bool {
        self.magnitude() > INFINITY_32
    }

    /// The value compares `>= 0.0`: it is no NaN, and it is a zero of either
    /// sign or has its sign bit clear.
    pub open spec fn spec_is_nonnegative(self) -> bool {
        !self.spec_is_nan() && (!self.sign() || self.magnitude() == 0)
    }

    /// The value compares `> 0.0`: it is no NaN, its sign bit is clear, and it
    /// is no zero.
    pub open spec fn spec_is_positive(self) -> bool {
        !self.spec_is_nan() && !self.sign() && self.magnitude() != 0
    }

    /// Returns whether the value compares `>= 0.0`.
    pub fn is_nonnegative(&self) -> (r: bool)
        ensures
            r == self.spec_is_nonnegative(),
    {
        self.bits <= INFINITY_32 || self.bits == SIGN_BIT_32
    }

    /// Returns whether the value compares `> 0.0`.
    pub fn is_positive(&self) -> (r: bool)
        ensures
            r == self.spec_is_positive(),
    {
        0 < self.bits && self.bits <= INFINITY_32
    }
}

impl Float64 {
    /// The bits below the sign bit: exponent and mantissa.
    pub open spec fn magnitude(self) -> int {
        (self.bits as int) % (SIGN_BIT_64 as int)
    }

    /// The value compares `== 0.0`: it is a zero of either sign.
    pub open spec fn spec_is_zero(self) -> bool {
        self.magnitude() == 0
    }

    /// Returns whether the value compares `== 0.0`.
    pub fn is_zero(&self) -> (r: bool)
        ensures
            r == self.spec_is_zero(),
    {
        self.bits == 0 || self.bits == SIGN_BIT_64
    }
}

} // verus!
