//! CPU-side vertex records. Components are 16.16 fixed-point integers; the
//! host shell converts each component to the 4-byte floating-point form the
//! graphics API expects, preserving the field order and byte offsets below.

use vstd::prelude::*;

verus! {

/// Fixed-point one for vertex components.
pub const UNIT: i32 = 65536;

/// Fixed-point one half for vertex components.
pub const HALF: i32 = 32768;

/// Fixed-point minus one for vertex components.
pub const NEG_UNIT: i32 = -65536;

/// Fixed-point minus one half for vertex components.
pub const NEG_HALF: i32 = -32768;

/// Byte stride between consecutive vertices in the uploaded buffer:
/// 12 components of 4 bytes each.
pub const VERTEX_STRIDE: u32 = 48;

/// Byte offset of the position components within a vertex.
pub const POSITION_OFFSET: u32 = 0;

/// Byte offset of the color components within a vertex.
pub const COLOR_OFFSET: u32 = 12;

/// Byte offset of the normal components within a vertex.
pub const NORMAL_OFFSET: u32 = 28;

/// Byte offset of the texture-coordinate components within a vertex.
pub const UV_OFFSET: u32 = 40;

/// A two-component fixed-point vector.
#[derive(Clone, Copy, PartialEq, Eq, Structural, Debug)]
pub struct Vec2 {
    pub x: i32,
    pub y: i32,
}

/// A three-component fixed-point vector.
#[derive(Clone, Copy, PartialEq, Eq, Structural, Debug)]
pub struct Vec3 {
    pub x: i32,
    pub y: i32,
    pub z: i32,
}

/// A four-component fixed-point vector.
#[derive(Clone, Copy, PartialEq, Eq, Structural, Debug)]
pub struct Vec4 {
    pub x: i32,
    pub y: i32,
    pub z: i32,
    pub w: i32,
}

/// One vertex: position, color, normal and texture coordinates, in the
/// field order that the pipelines' attribute offsets assume.
#[derive(Clone, Copy, PartialEq, Eq, Structural, Debug)]
pub struct Vertex {
    pub position: Vec3,
    pub color: Vec4,
    pub normal: Vec3,
    pub uv: Vec2,
}

/// A white vertex with the given position, normal and texture coordinates,
/// as a specification value.
pub open spec fn spec_vtx(
    px: i32,
    py: i32,
    pz: i32,
    nx: i32,
    ny: i32,
    nz: i32,
    u: i32,
    v: i32,
) -> Vertex {
    Vertex {
        position: Vec3 { x: px, y: py, z: pz },
        color: Vec4 { x: UNIT, y: UNIT, z: UNIT, w: UNIT },
        normal: Vec3 { x: nx, y: ny, z: nz },
        uv: Vec2 { x: u, y: v },
    }
}

/// Builds a white vertex with the given position, normal and texture
/// coordinates.
pub fn vtx(px: i32, py: i32, pz: i32, nx: i32, ny: i32, nz: i32, u: i32, v: i32) -> (r: Vertex)
    ensures
        r == spec_vtx(px, py, pz, nx, ny, nz, u, v),
{
    Vertex {
        position: Vec3 { x: px, y: py, z: pz },
        color: Vec4 { x: UNIT, y: UNIT, z: UNIT, w: UNIT },
        normal: Vec3 { x: nx, y: ny, z: nz },
        uv: Vec2 { x: u, y: v },
    }
}

} // verus!
