//! Numbers as the camera rules carry them.
//!
//! The rules never calculate with the magnitudes they handle: they select
//! them, order them and hand them on. A magnitude is therefore kept as the
//! 32-bit pattern of an IEEE 754 single-precision number, which can be
//! compared exactly and converted to and from the host's number type without
//! loss. The one operation done on the pattern itself is negation, which
//! IEEE 754 defines as a flip of the sign bit.

use vstd::prelude::*;

verus! {

/// The bit that carries the sign.
pub const SIGN_BIT: u32 = 0x8000_0000;

/// The pattern of positive zero.
pub const ZERO: u32 = 0x0000_0000;

/// The pattern of negative zero.
pub const NEG_ZERO: u32 = 0x8000_0000;

/// The pattern of one, the neutral factor of a product.
pub const ONE: u32 = 0x3F80_0000;

/// The pattern of minus one.
pub const NEG_ONE: u32 = 0xBF80_0000;

/// A single-precision number, held as its bit pattern.
#[derive(Clone, Copy, Debug, PartialEq, Eq, Structural)]
pub struct Scalar {
    pub bits: u32,
}

impl Scalar {
    /// The number one.
    pub open spec fn spec_one() -> Scalar {
        Scalar { bits: ONE }
    }

    /// The number one.
    #[verifier::when_used_as_spec(spec_one)]
    pub fn one() -> (r: Scalar)
        ensures
            r == Scalar::spec_one(),
    {
        Scalar { bits: ONE }
    }

    /// Whether this is zero, of either sign.
    pub open spec fn is_zero(self) -> bool {
        self.bits == ZERO || self.bits == NEG_ZERO
    }

    /// The same magnitude with the opposite sign.
    pub open spec fn spec_negated(self) -> Scalar {
        Scalar { bits: self.bits ^ SIGN_BIT }
    }

    /// The same magnitude with the opposite sign: the sign bit is flipped
    /// and every other bit is kept.
    #[verifier::when_used_as_spec(spec_negated)]
    pub fn negated(self) -> (r: Scalar)
        ensures
            r == self.spec_negated(),
            r.bits & SIGN_BIT != self.bits & SIGN_BIT,
            r.bits & !SIGN_BIT == self.bits & !SIGN_BIT,
    {
        let b = self.bits;
        assert((b ^ 0x8000_0000u32) & 0x8000_0000u32 != b & 0x8000_0000u32) by (bit_vector);
        assert((b ^ 0x8000_0000u32) & !0x8000_0000u32 == b & !0x8000_0000u32) by (bit_vector);
        Scalar { bits: self.bits ^ SIGN_BIT }
    }
}

/// A pair of scalars: a pointer or scroll movement.
#[derive(Clone, Copy, Debug, PartialEq, Eq, Structural)]
pub struct Vec2 {
    pub x: Scalar,
    pub y: Scalar,
}

/// A triple of scalars: a position, a direction or a set of three angles.
#[derive(Clone, Copy, Debug, PartialEq, Eq, Structural)]
pub struct Vec3 {
    pub x: Scalar,
    pub y: Scalar,
    pub z: Scalar,
}

impl Vec3 {
    /// The vector with the given bit patterns as components.
    pub open spec fn spec_from_bits(x: u32, y: u32, z: u32) -> Vec3 {
        Vec3 { x: Scalar { bits: x }, y: Scalar { bits: y }, z: Scalar { bits: z } }
    }

    /// The vector with the given bit patterns as components.
    #[verifier::when_used_as_spec(spec_from_bits)]
    pub fn from_bits(x: u32, y: u32, z: u32) -> (r: Vec3)
        ensures
            r == Vec3::spec_from_bits(x, y, z),
    {
        Vec3 { x: Scalar { bits: x }, y: Scalar { bits: y }, z: Scalar { bits: z } }
    }

    /// The vector that points the opposite way: each component negated.
    pub open spec fn spec_negated(self) -> Vec3 {
        Vec3 { x: self.x.spec_negated(), y: self.y.spec_negated(), z: self.z.spec_negated() }
    }

    /// The vector that points the opposite way: each component negated.
    #[verifier::when_used_as_spec(spec_negated)]
    pub fn negated(self) -> (r: Vec3)
        ensures
            r == self.spec_negated(),
    {
        Vec3 { x: self.x.negated(), y: self.y.negated(), z: self.z.negated() }
    }
}

} // verus!
