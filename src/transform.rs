//! Placement transforms, held as the exact bit patterns of their `f32`
//! components so that copies and saved documents preserve them exactly.

use vstd::prelude::*;

verus! {

/// Bit pattern of the `f32` value `1.0`.
pub const ONE_BITS: u32 = 0x3f80_0000;

/// Three `f32` components, as bit patterns.
#[derive(Clone, Copy, Debug, PartialEq, Eq, Structural)]
pub struct Vec3Bits {
    pub x: u32,
    pub y: u32,
    pub z: u32,
}

/// A rotation quaternion, its `f32` components as bit patterns.
#[derive(Clone, Copy, Debug, PartialEq, Eq, Structural)]
pub struct QuatBits {
    pub x: u32,
    pub y: u32,
    pub z: u32,
    pub w: u32,
}

/// A translation, a rotation and a scale.
#[derive(Clone, Copy, Debug, PartialEq, Eq, Structural)]
pub struct PlacementTransform {
    pub translation: Vec3Bits,
    pub rotation: QuatBits,
    pub scale: Vec3Bits,
}

impl PlacementTransform {
    pub open spec fn is_identity(self) -> bool {
        &&& self.translation == Vec3Bits { x: 0, y: 0, z: 0 }
        &&& self.rotation == QuatBits { x: 0, y: 0, z: 0, w: ONE_BITS }
        &&& self.scale == Vec3Bits { x: ONE_BITS, y: ONE_BITS, z: ONE_BITS }
    }

    /// No translation, no rotation, unit scale.
    pub fn identity() -> (r: Self)
        ensures
            r.is_identity(),
    {
        PlacementTransform {
            translation: Vec3Bits { x: 0, y: 0, z: 0 },
            rotation: QuatBits { x: 0, y: 0, z: 0, w: ONE_BITS },
            scale: Vec3Bits { x: ONE_BITS, y: ONE_BITS, z: ONE_BITS },
        }
    }
}

} // verus!
