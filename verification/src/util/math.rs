//! Small vectors and the arithmetic on them that the renderer needs.
//!
//! The vectors are generic in their component type: the buffers they are
//! loaded into only move components around and never compute on them.

use vstd::prelude::*;

verus! {

/// Two components.
#[derive(Clone, Copy, Debug, PartialEq, Eq)]
pub struct Vector2<T> {
    pub x: T,
    pub y: T,
}

/// Three components.
#[derive(Clone, Copy, Debug, PartialEq, Eq)]
pub struct Vector3<T> {
    pub x: T,
    pub y: T,
    pub z: T,
}

/// Four components.
#[derive(Clone, Copy, Debug, PartialEq, Eq)]
pub struct Vector4<T> {
    pub x: T,
    pub y: T,
    pub z: T,
    pub w: T,
}

impl<T> Vector2<T> {
    pub fn new(x: T, y: T) -> (v: Self)
        ensures
            v == (Vector2 { x, y }),
    {
        Vector2 { x, y }
    }

    /// The components in storage order.
    pub open spec fn components(self) -> Seq<T> {
        seq![self.x, self.y]
    }
}

impl<T> Vector3<T> {
    pub fn new(x: T, y: T, z: T) -> (v: Self)
        ensures
            v == (Vector3 { x, y, z }),
    {
        Vector3 { x, y, z }
    }

    /// The components in storage order.
    pub open spec fn components(self) -> Seq<T> {
        seq![self.x, self.y, self.z]
    }
}

impl<T> Vector4<T> {
    pub fn new(x: T, y: T, z: T, w: T) -> (v: Self)
        ensures
            v == (Vector4 { x, y, z, w }),
    {
        Vector4 { x, y, z, w }
    }

    /// The components in storage order.
    pub open spec fn components(self) -> Seq<T> {
        seq![self.x, self.y, self.z, self.w]
    }
}

/// An unsigned 32-bit number read as a signed one: values from 2^31 on come
/// out negative.
pub open spec fn as_signed(value: u32) -> int {
    if value < 0x8000_0000u32 {
        value as int
    } else {
        value - 0x1_0000_0000
    }
}

/// Reinterprets an unsigned 32-bit number as a signed one, as a graphics API
/// that counts in signed integers is given it.
pub fn to_signed(value: u32) -> (signed: i32)
    ensures
        signed == as_signed(value),
{
    assert(value < 0x8000_0000u32 ==> (value as i32) == value) by (bit_vector);
    assert(value >= 0x8000_0000u32 ==> (value as i32) == value - 0x1_0000_0000) by (bit_vector);
    #[verifier::truncate]
    (value as i32)
}

/// One component after wrapping: a value above `max` comes down by `max`, a
/// value below `min` goes up by `max`, anything else stays.
pub open spec fn wrapped(value: int, min: int, max: int) -> int {
    if value > max {
        value - max
    } else if value < min {
        value + max
    } else {
        value
    }
}

/// Whether `wrapped(value, min, max)` is still an `i32`.
pub open spec fn wrap_fits(value: int, min: int, max: int) -> bool {
    i32::MIN <= wrapped(value, min, max) <= i32::MAX
}

/// Wraps each component of `vec` once, in place.
///
/// With `min == 0` and `max == 360` this keeps an angle that moves in steps
/// smaller than a full turn inside `0..=360`.
pub fn wrap_vec3(vec: &mut Vector3<i32>, min: i32, max: i32)
    requires
        wrap_fits(old(vec).x as int, min as int, max as int),
        wrap_fits(old(vec).y as int, min as int, max as int),
        wrap_fits(old(vec).z as int, min as int, max as int),
    ensures
        final(vec).x == wrapped(old(vec).x as int, min as int, max as int),
        final(vec).y == wrapped(old(vec).y as int, min as int, max as int),
        final(vec).z == wrapped(old(vec).z as int, min as int, max as int),
{
    if vec.x > max {
        vec.x -= max
    } else if vec.x < min {
        vec.x += max
    }
    if vec.y > max {
        vec.y -= max
    } else if vec.y < min {
        vec.y += max
    }
    if vec.z > max {
        vec.z -= max
    } else if vec.z < min {
        vec.z += max
    }
}

/// Wrapping between zero and `max` brings every value that is off by less
/// than `max` back into `0..=max`.
pub proof fn lemma_wrapped_in_range(value: int, max: int)
    requires
        0 <= max,
        -max <= value <= 2 * max,
    ensures
        0 <= wrapped(value, 0, max) <= max,
{
}

} // verus!
