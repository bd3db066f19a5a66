//! The internal, already validated representation of object requests.
//!
//! Floating-point values are carried as IEEE-754 single precision bit patterns
//! (`f32::to_bits`), so that the rules about them can be stated and checked on
//! plain integers.

use vstd::prelude::*;

verus! {

/// Bit pattern of `0.0_f32`.
pub const ZERO_BITS: u32 = 0x0000_0000;

/// Bit pattern of `-0.0_f32`, which compares equal to `0.0`.
pub const NEG_ZERO_BITS: u32 = 0x8000_0000;

/// Bit pattern of `f32::INFINITY`.
pub const INFINITY_BITS: u32 = 0x7F80_0000;

/// Bit pattern of `1.0_f32`.
pub const ONE_BITS: u32 = 0x3F80_0000;

/// Whether the single precision number with bit pattern `bits` lies in `[0, 1]`.
///
/// Non-negative numbers order like their bit patterns, so the numbers from
/// `+0.0` to `1.0` are exactly the patterns up to that of `1.0`; `-0.0` is the
/// only other pattern equal to a number of the interval. NaN is not in it.
pub open spec fn in_unit_interval(bits: u32) -> bool {
    bits <= ONE_BITS || bits == NEG_ZERO_BITS
}

/// Checks `in_unit_interval`.
pub fn is_unit_channel(bits: u32) -> (r: bool)
    ensures
        r == in_unit_interval(bits),
{
    bits <= ONE_BITS || bits == NEG_ZERO_BITS
}

/// A point in space: three single precision coordinates, as bit patterns.
#[derive(Debug, Clone, Copy, PartialEq, Eq, Structural)]
pub struct Vec3 {
    pub x: u32,
    pub y: u32,
    pub z: u32,
}

impl Vec3 {
    pub fn new(x: u32, y: u32, z: u32) -> (r: Vec3)
        ensures
            r == (Vec3 { x, y, z }),
    {
        Vec3 { x, y, z }
    }
}

/// A color in the sRGB space with alpha; each channel is a bit pattern.
#[derive(Debug, Clone, Copy, PartialEq, Eq, Structural)]
pub struct Rgba {
    pub r: u32,
    pub g: u32,
    pub b: u32,
    pub a: u32,
}

impl Rgba {
    /// All four channels lie in `[0, 1]`.
    pub open spec fn is_valid(self) -> bool {
        &&& in_unit_interval(self.r)
        &&& in_unit_interval(self.g)
        &&& in_unit_interval(self.b)
        &&& in_unit_interval(self.a)
    }

    /// An opaque color from three channels.
    pub open spec fn opaque(r: u32, g: u32, b: u32) -> Rgba {
        Rgba { r, g, b, a: ONE_BITS }
    }
}

/// The shape of a simulated object.
#[derive(Debug, Clone, Copy, PartialEq, Eq, Structural)]
pub enum ObjectShape {
    Cube,
    Sphere,
}

/// What an object looks like.
#[derive(Debug, Clone, Copy, PartialEq, Eq, Structural)]
pub struct ObjectProperties {
    pub color: Rgba,
    /// Size as a bit pattern; greater than zero.
    pub size: u32,
    pub shape: ObjectShape,
}

/// Whether the single precision number with bit pattern `bits` is greater
/// than zero: the sign bit is clear and the pattern is neither zero nor NaN
/// (the patterns above that of infinity).
pub open spec fn is_positive_bits(bits: u32) -> bool {
    0 < bits <= INFINITY_BITS
}

/// Checks `is_positive_bits`.
pub fn is_positive(bits: u32) -> (r: bool)
    ensures
        r == is_positive_bits(bits),
{
    0 < bits && bits <= INFINITY_BITS
}

impl ObjectProperties {
    /// Every color channel lies in `[0, 1]` and the size is greater than zero.
    pub open spec fn is_valid(self) -> bool {
        self.color.is_valid() && is_positive_bits(self.size)
    }
}

/// The identity of a simulated object: a 128-bit UUID, as its big-endian value.
#[derive(Debug, Clone, Copy, PartialEq, Eq, Structural, Hash)]
pub struct ObjectId {
    pub uuid: u128,
}

/// Moves an existing object towards a new target position.
#[derive(Debug, Clone, Copy, PartialEq, Eq, Structural)]
pub struct SetObjectPositionRequest {
    pub object_id: ObjectId,
    pub position: Vec3,
}

/// Creates a new object.
#[derive(Debug, Clone, Copy, PartialEq, Eq, Structural)]
pub struct SpawnObjectRequest {
    pub object_id: ObjectId,
    pub object_properties: ObjectProperties,
    pub position: Vec3,
}

/// A request about one object.
#[derive(Debug, Clone, Copy, PartialEq, Eq, Structural)]
pub enum ObjectRequest {
    SetPosition(SetObjectPositionRequest),
    Spawn(SpawnObjectRequest),
}

impl ObjectRequest {
    /// Every color channel that the request carries lies in `[0, 1]`.
    pub open spec fn is_valid(self) -> bool {
        match self {
            ObjectRequest::SetPosition(_) => true,
            ObjectRequest::Spawn(s) => s.object_properties.is_valid(),
        }
    }
}

} // verus!
