//! The OpenGL enumerants that the bookkeeping hands out or decides on.

use vstd::prelude::*;

verus! {

/// "No type": what a buffer reports before anything was loaded into it.
pub const NONE: u32 = 0;

/// Component type: signed 8-bit integer.
pub const BYTE: u32 = 0x1400;

/// Component type: unsigned 8-bit integer.
pub const UNSIGNED_BYTE: u32 = 0x1401;

/// Component type: signed 16-bit integer.
pub const SHORT: u32 = 0x1402;

/// Component type: unsigned 16-bit integer.
pub const UNSIGNED_SHORT: u32 = 0x1403;

/// Component type: signed 32-bit integer.
pub const INT: u32 = 0x1404;

/// Component type: unsigned 32-bit integer.
pub const UNSIGNED_INT: u32 = 0x1405;

/// Component type: 32-bit floating point.
pub const FLOAT: u32 = 0x1406;

/// Shader stage: fragment.
pub const FRAGMENT_SHADER: u32 = 0x8B30;

/// Shader stage: vertex.
pub const VERTEX_SHADER: u32 = 0x8B31;

/// Shader stage: geometry.
pub const GEOMETRY_SHADER: u32 = 0x8DD9;

/// Shader stage: tessellation control.
pub const TESS_CONTROL_SHADER: u32 = 0x8E88;

/// The first colour attachment point of a framebuffer; the others follow it
/// one by one.
pub const COLOR_ATTACHMENT0: u32 = 0x8CE0;

/// The first texture unit; the others follow it one by one.
pub const TEXTURE0: u32 = 0x84C0;

} // verus!
