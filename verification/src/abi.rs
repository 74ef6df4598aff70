//! The stable type layer: every value that crosses the module boundary
//! is one of these fixed-layout records of plain integers and bools, so
//! that its binary representation does not depend on either side's
//! internal containers.
//!
//! Scalars that the rendering engine treats as IEEE-754 single-precision
//! numbers cross the boundary as their 32-bit bit patterns.  The host
//! never does arithmetic on them; it stores and returns them verbatim,
//! so the protocol layer can promise bit-for-bit round trips.

use vstd::prelude::*;

verus! {

/// Raw 64-bit handle identifying one object in the scene store.
pub type RawEntity = u64;

/// Opaque entity handle: created by the host, referenced by the module,
/// destroyed by the host on despawn.  No semantics beyond equality.
#[derive(Clone, Copy, PartialEq, Eq, Hash, Debug, Structural)]
pub struct Entity(pub RawEntity);

/// Raw key of an entry in the asset registry.
pub type RawAssetKey = u64;

/// Module-visible handle to a host-owned audio resource.  The key maps
/// to a strong reference in the registry; the module must release it
/// explicitly.
#[derive(Clone, Copy, PartialEq, Eq, Debug, Structural)]
pub struct AudioAsset(pub RawAssetKey);

/// A module-side owned handle to a registry entry.  Whoever holds it
/// is responsible for releasing the key through `drop_asset` exactly
/// once.
#[derive(Clone, Copy, PartialEq, Eq, Debug, Structural)]
pub struct AssetHandle(pub RawAssetKey);

/// RGBA color, one unsigned byte per channel.
#[derive(Clone, Copy, PartialEq, Eq, Debug, Structural)]
pub struct Rgba(pub u8, pub u8, pub u8, pub u8);

/// A 3-vector of single-precision bit patterns.
#[derive(Clone, Copy, PartialEq, Eq, Debug, Structural)]
pub struct Vec3Bits {
    pub x: u32,
    pub y: u32,
    pub z: u32,
}

/// A quaternion of single-precision bit patterns.
#[derive(Clone, Copy, PartialEq, Eq, Debug, Structural)]
pub struct QuatBits {
    pub x: u32,
    pub y: u32,
    pub z: u32,
    pub w: u32,
}

/// Bit pattern of 0.0.
pub const BITS_ZERO: u32 = 0x0000_0000;

/// Bit pattern of 0.5.
pub const BITS_HALF: u32 = 0x3F00_0000;

/// Bit pattern of 1.0.
pub const BITS_ONE: u32 = 0x3F80_0000;

impl Vec3Bits {
    /// The same bit pattern in all three components.
    pub fn splat(v: u32) -> (r: Vec3Bits)
        ensures
            r == (Vec3Bits { x: v, y: v, z: v }),
    {
        Vec3Bits { x: v, y: v, z: v }
    }
}

impl QuatBits {
    /// The identity rotation (0, 0, 0, 1).
    pub fn identity() -> (r: QuatBits)
        ensures
            r == (QuatBits { x: BITS_ZERO, y: BITS_ZERO, z: BITS_ZERO, w: BITS_ONE }),
    {
        QuatBits { x: BITS_ZERO, y: BITS_ZERO, z: BITS_ZERO, w: BITS_ONE }
    }
}

/// A closed, fixed set of primitive descriptors the module may ask the
/// host to render.
#[derive(Clone, Copy, PartialEq, Eq, Debug, Structural)]
pub enum Shape {
    /// A box with the given size on each axis.
    Cuboid(Vec3Bits),
    /// A flat plane with the given width and height.
    Plane(u32, u32),
}

/// Parameters of a point light the module may ask the host to spawn.
/// The scalar fields are single-precision bit patterns.
#[derive(Clone, Copy, PartialEq, Eq, Debug, Structural)]
pub struct PointLight {
    pub intensity: u32,
    pub range: u32,
    pub shadows_enabled: bool,
    pub shadow_depth_bias: u32,
    pub color: Rgba,
}

/// A fixed-layout snapshot of an entity's positional state, used to
/// pass transforms across the boundary without exposing the host's
/// native representation.
#[derive(Clone, Copy, PartialEq, Eq, Debug, Structural)]
pub struct StableTransform {
    pub translation: Vec3Bits,
    pub rotation: QuatBits,
    pub scale: Vec3Bits,
}

impl StableTransform {
    /// Identity transform at the origin.
    pub fn identity() -> (r: StableTransform)
        ensures
            r.translation == (Vec3Bits { x: BITS_ZERO, y: BITS_ZERO, z: BITS_ZERO }),
            r.rotation == (QuatBits { x: BITS_ZERO, y: BITS_ZERO, z: BITS_ZERO, w: BITS_ONE }),
            r.scale == (Vec3Bits { x: BITS_ONE, y: BITS_ONE, z: BITS_ONE }),
    {
        StableTransform {
            translation: Vec3Bits { x: BITS_ZERO, y: BITS_ZERO, z: BITS_ZERO },
            rotation: QuatBits::identity(),
            scale: Vec3Bits::splat(BITS_ONE),
        }
    }

    /// Identity rotation and unit scale at the given translation.
    pub fn from_xyz(x: u32, y: u32, z: u32) -> (r: StableTransform)
        ensures
            r.translation == (Vec3Bits { x: x, y: y, z: z }),
            r.rotation == (QuatBits { x: BITS_ZERO, y: BITS_ZERO, z: BITS_ZERO, w: BITS_ONE }),
            r.scale == (Vec3Bits { x: BITS_ONE, y: BITS_ONE, z: BITS_ONE }),
    {
        StableTransform {
            translation: Vec3Bits { x: x, y: y, z: z },
            rotation: QuatBits::identity(),
            scale: Vec3Bits::splat(BITS_ONE),
        }
    }

    /// The same transform with the scale replaced.
    pub fn with_scale(self, scale: Vec3Bits) -> (r: StableTransform)
        ensures
            r.translation == self.translation,
            r.rotation == self.rotation,
            r.scale == scale,
    {
        StableTransform { translation: self.translation, rotation: self.rotation, scale: scale }
    }
}

/// Discriminant of the sentinel "unidentified" key code.  Passing it to
/// `key_pressed` is a contract violation.
pub const KEY_CODE_UNIDENTIFIED: u32 = 0;

/// Largest valid key-code discriminant (the F35 key) of the closed,
/// host-defined key-code enumeration.
pub const KEY_CODE_MAX: u32 = 194;

/// Down arrow key.
pub const KEY_CODE_ARROW_DOWN: u32 = 80;

/// Left arrow key.
pub const KEY_CODE_ARROW_LEFT: u32 = 81;

/// Right arrow key.
pub const KEY_CODE_ARROW_RIGHT: u32 = 82;

/// Up arrow key.
pub const KEY_CODE_ARROW_UP: u32 = 83;

/// A key code is valid when it lies inside the enumeration and is not
/// the "unidentified" sentinel.
pub open spec fn key_code_valid(code: u32) -> bool {
    code != KEY_CODE_UNIDENTIFIED && code <= KEY_CODE_MAX
}

/// Runtime check of `key_code_valid`.
pub fn key_code_in_range(code: u32) -> (r: bool)
    ensures
        r == key_code_valid(code),
{
    code != KEY_CODE_UNIDENTIFIED && code <= KEY_CODE_MAX
}

} // verus!
