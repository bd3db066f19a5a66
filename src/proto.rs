//! The messages of the object management protocol, as the network layer
//! decodes them. Optional fields are `None` when the caller left them out;
//! enumerations arrive as raw integers and may hold unknown values.
//! Floating-point fields are bit patterns (`f32::to_bits`).

use vstd::prelude::*;

verus! {

/// Wire value of `ObjectColorEnum::Unspecified`.
pub const COLOR_UNSPECIFIED: i32 = 0;

/// Wire value of `ObjectColorEnum::Red`.
pub const COLOR_RED: i32 = 1;

/// Wire value of `ObjectColorEnum::Green`.
pub const COLOR_GREEN: i32 = 2;

/// Wire value of `ObjectColorEnum::Blue`.
pub const COLOR_BLUE: i32 = 3;

/// Wire value of `ObjectShape::Unspecified`.
pub const SHAPE_UNSPECIFIED: i32 = 0;

/// Wire value of `ObjectShape::Cube`.
pub const SHAPE_CUBE: i32 = 1;

/// Wire value of `ObjectShape::Sphere`.
pub const SHAPE_SPHERE: i32 = 2;

/// A named color.
#[derive(Debug, Clone, Copy, PartialEq, Eq, Structural)]
pub enum ObjectColorEnum {
    Unspecified,
    Red,
    Green,
    Blue,
}

/// The named color with wire value `value`, if there is one.
pub open spec fn color_enum_of(value: i32) -> Option<ObjectColorEnum> {
    if value == COLOR_UNSPECIFIED {
        Some(ObjectColorEnum::Unspecified)
    } else if value == COLOR_RED {
        Some(ObjectColorEnum::Red)
    } else if value == COLOR_GREEN {
        Some(ObjectColorEnum::Green)
    } else if value == COLOR_BLUE {
        Some(ObjectColorEnum::Blue)
    } else {
        None
    }
}

impl ObjectColorEnum {
    /// Decodes a wire value.
    pub fn from_i32(value: i32) -> (r: Option<ObjectColorEnum>)
        ensures
            r == color_enum_of(value),
    {
        if value == COLOR_UNSPECIFIED {
            Some(ObjectColorEnum::Unspecified)
        } else if value == COLOR_RED {
            Some(ObjectColorEnum::Red)
        } else if value == COLOR_GREEN {
            Some(ObjectColorEnum::Green)
        } else if value == COLOR_BLUE {
            Some(ObjectColorEnum::Blue)
        } else {
            None
        }
    }
}

/// A shape as the protocol names it.
#[derive(Debug, Clone, Copy, PartialEq, Eq, Structural)]
pub enum ObjectShape {
    Unspecified,
    Cube,
    Sphere,
}

/// The shape with wire value `value`, if there is one.
pub open spec fn shape_of(value: i32) -> Option<ObjectShape> {
    if value == SHAPE_UNSPECIFIED {
        Some(ObjectShape::Unspecified)
    } else if value == SHAPE_CUBE {
        Some(ObjectShape::Cube)
    } else if value == SHAPE_SPHERE {
        Some(ObjectShape::Sphere)
    } else {
        None
    }
}

impl ObjectShape {
    /// Decodes a wire value.
    pub fn from_i32(value: i32) -> (r: Option<ObjectShape>)
        ensures
            r == shape_of(value),
    {
        if value == SHAPE_UNSPECIFIED {
            Some(ObjectShape::Unspecified)
        } else if value == SHAPE_CUBE {
            Some(ObjectShape::Cube)
        } else if value == SHAPE_SPHERE {
            Some(ObjectShape::Sphere)
        } else {
            None
        }
    }
}

/// A point given by the caller.
#[derive(Debug, Clone, Copy, PartialEq, Eq, Structural)]
pub struct Position {
    pub x: u32,
    pub y: u32,
    pub z: u32,
}

/// An explicit color.
#[derive(Debug, Clone, Copy, PartialEq, Eq, Structural)]
pub struct ColorRgba {
    pub r: u32,
    pub g: u32,
    pub b: u32,
    pub a: u32,
}

/// The two ways of giving a color.
#[derive(Debug, Clone, Copy, PartialEq, Eq, Structural)]
pub enum Color {
    /// A wire value of `ObjectColorEnum`.
    ColorEnum(i32),
    ColorRgba(ColorRgba),
}

#[derive(Debug, Clone, Copy, PartialEq, Eq, Structural)]
pub struct ObjectColor {
    pub color: Option<Color>,
}

#[derive(Debug, Clone, Copy, PartialEq, Eq, Structural)]
pub struct ObjectSize {
    pub value: u32,
}

#[derive(Debug, Clone, Copy, PartialEq, Eq, Structural)]
pub struct ObjectProperties {
    /// A wire value of `ObjectShape`.
    pub shape: i32,
    pub color: Option<ObjectColor>,
    pub size: Option<ObjectSize>,
}

/// The bytes of a UUID, most significant first.
#[derive(Debug, Clone, PartialEq, Eq)]
pub struct Uuid {
    pub value: Vec<u8>,
}

#[derive(Debug, Clone, PartialEq, Eq)]
pub struct ObjectId {
    pub uuid: Option<Uuid>,
}

#[derive(Debug, Clone, PartialEq, Eq)]
pub struct SetObjectPositionRequest {
    pub object_id: Option<ObjectId>,
    pub position: Option<Position>,
}

#[derive(Debug, Clone, Copy, PartialEq, Eq, Structural)]
pub struct SetObjectPositionResponse {
    pub success: bool,
}

#[derive(Debug, Clone, Copy, PartialEq, Eq, Structural)]
pub struct SpawnObjectRequest {
    pub object_properties: Option<ObjectProperties>,
    pub position: Option<Position>,
}

#[derive(Debug, Clone, PartialEq, Eq)]
pub struct SpawnObjectResponse {
    pub spawned_object_id: Option<ObjectId>,
}

#[derive(Debug, Clone, PartialEq, Eq)]
pub struct SetObjectPositionSequenceRequest {
    pub requests: Vec<SetObjectPositionRequest>,
}

#[derive(Debug, Clone, PartialEq, Eq)]
pub struct SetObjectPositionSequenceResponse {
    pub responses: Vec<SetObjectPositionResponse>,
}

#[derive(Debug, Clone, PartialEq, Eq)]
pub struct SpawnObjectSequenceRequest {
    pub requests: Vec<SpawnObjectRequest>,
}

#[derive(Debug, Clone, PartialEq, Eq)]
pub struct SpawnObjectSequenceResponse {
    pub responses: Vec<SpawnObjectResponse>,
}

} // verus!
