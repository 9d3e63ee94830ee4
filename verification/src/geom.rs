//! Fixed-point geometry for the scene description.
//!
//! Every length, position and quaternion component is stored in thousandths
//! of a world unit ("milli-units"), so each fixed pose of the demo scene is
//! an exact integer and the embedding binary only divides by 1000 when it
//! hands a value to the engine.

use vstd::prelude::*;

verus! {

/// Number of stored units per world unit.
pub const MILLI: i64 = 1000;

/// A point or vector in world space, in milli-units per axis.
#[derive(Clone, Copy, Debug, PartialEq, Eq, Structural)]
pub struct Coord3 {
    pub x: i64,
    pub y: i64,
    pub z: i64,
}

/// The zero vector (also the world origin).
pub open spec fn zero3() -> Coord3 {
    Coord3 { x: 0, y: 0, z: 0 }
}

impl Coord3 {
    /// The zero vector.
    pub fn zero() -> (c: Coord3)
        ensures
            c == zero3(),
    {
        Coord3 { x: 0, y: 0, z: 0 }
    }
}

/// A rotation as a quaternion, components in milli-units.
#[derive(Clone, Copy, Debug, PartialEq, Eq, Structural)]
pub struct Rotation4 {
    pub x: i64,
    pub y: i64,
    pub z: i64,
    pub w: i64,
}

/// The identity rotation.
pub open spec fn identity_rotation() -> Rotation4 {
    Rotation4 { x: 0, y: 0, z: 0, w: MILLI }
}

/// An affine pose: where a body sits, how it is turned and how it is scaled.
#[derive(Clone, Copy, Debug, PartialEq, Eq, Structural)]
pub struct Transform3 {
    pub translation: Coord3,
    pub rotation: Rotation4,
    pub scale: Coord3,
}

/// The pose that only moves the origin to `translation`: no rotation and
/// unit scale.
pub open spec fn pose_at(translation: Coord3) -> Transform3 {
    Transform3 {
        translation,
        rotation: identity_rotation(),
        scale: Coord3 { x: MILLI, y: MILLI, z: MILLI },
    }
}

impl Transform3 {
    /// Builds the pose that places a body at `translation`, unrotated and
    /// unscaled.
    pub fn from_translation(translation: Coord3) -> (t: Transform3)
        ensures
            t == pose_at(translation),
    {
        Transform3 {
            translation,
            rotation: Rotation4 { x: 0, y: 0, z: 0, w: MILLI },
            scale: Coord3 { x: MILLI, y: MILLI, z: MILLI },
        }
    }
}

/// An opaque colour, as 8-bit sRGB channels.
#[derive(Clone, Copy, Debug, PartialEq, Eq, Structural)]
pub struct Rgb {
    pub r: u8,
    pub g: u8,
    pub b: u8,
}

/// White, the floor's colour.
pub open spec fn white() -> Rgb {
    Rgb { r: 255, g: 255, b: 255 }
}

} // verus!
