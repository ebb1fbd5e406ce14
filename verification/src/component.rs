//! Components attached to game objects, and the small vectors they are made of.

use vstd::prelude::*;

verus! {

/// Bit pattern of the 32-bit float `0.0`.
pub const F32_ZERO: u32 = 0;

/// Bit pattern of the 32-bit float `1.0`.
pub const F32_ONE: u32 = 0x3F80_0000;

/// Three 32-bit floats, each held as its bit pattern.
#[derive(Clone, Copy, Debug, PartialEq, Eq, Structural)]
pub struct Vector3 {
    pub x: u32,
    pub y: u32,
    pub z: u32,
}

impl Vector3 {
    pub fn new(x: u32, y: u32, z: u32) -> (v: Self)
        ensures
            v == (Vector3 { x, y, z }),
    {
        Vector3 { x, y, z }
    }
}

/// Four 32-bit floats, each held as its bit pattern.
#[derive(Clone, Copy, Debug, PartialEq, Eq, Structural)]
pub struct Vector4 {
    pub x: u32,
    pub y: u32,
    pub z: u32,
    pub w: u32,
}

impl Vector4 {
    pub fn new(x: u32, y: u32, z: u32, w: u32) -> (v: Self)
        ensures
            v == (Vector4 { x, y, z, w }),
    {
        Vector4 { x, y, z, w }
    }
}

/// Where an object stands, how it is turned and how large it is.
#[derive(Clone, Copy, Debug, PartialEq, Eq, Structural)]
pub struct Transform {
    pub position: Vector3,
    pub rotation: Vector3,
    pub scale: Vector3,
}

impl Transform {
    /// The identity placement: at the origin, not rotated, at scale one.
    pub open spec fn identity() -> Transform {
        Transform {
            position: Vector3 { x: F32_ZERO, y: F32_ZERO, z: F32_ZERO },
            rotation: Vector3 { x: F32_ZERO, y: F32_ZERO, z: F32_ZERO },
            scale: Vector3 { x: F32_ONE, y: F32_ONE, z: F32_ONE },
        }
    }

    pub fn new() -> (t: Self)
        ensures
            t == Transform::identity(),
    {
        Transform {
            position: Vector3::new(F32_ZERO, F32_ZERO, F32_ZERO),
            rotation: Vector3::new(F32_ZERO, F32_ZERO, F32_ZERO),
            scale: Vector3::new(F32_ONE, F32_ONE, F32_ONE),
        }
    }
}

impl Default for Transform {
    fn default() -> (t: Self)
        ensures
            t == Transform::identity(),
    {
        Transform::new()
    }
}

/// A flat RGBA color.
#[derive(Clone, Copy, Debug, PartialEq, Eq, Structural)]
pub struct Color {
    pub color: Vector4,
}

impl Color {
    /// Transparent black.
    pub open spec fn transparent() -> Color {
        Color { color: Vector4 { x: F32_ZERO, y: F32_ZERO, z: F32_ZERO, w: F32_ZERO } }
    }

    pub fn new() -> (c: Self)
        ensures
            c == Color::transparent(),
    {
        Color { color: Vector4::new(F32_ZERO, F32_ZERO, F32_ZERO, F32_ZERO) }
    }
}

impl Default for Color {
    fn default() -> (c: Self)
        ensures
            c == Color::transparent(),
    {
        Color::new()
    }
}

} // verus!
