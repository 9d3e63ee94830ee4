//! The fixed scene that the demo opens with, as plain data.
//!
//! The description names every entity the embedding binary spawns: a static
//! floor, the dynamic parent cube with its two attached child cuboids, a
//! point light and a camera.  The builder returns exactly one value, pinned
//! field by field by its postcondition, so the embedding binary has nothing
//! to decide: it only translates this data into engine calls.

use vstd::prelude::*;

use crate::geom::Coord3;
use crate::geom::Rgb;
use crate::geom::Transform3;
use crate::geom::pose_at;
use crate::geom::white;
use crate::geom::zero3;

verus! {

/// Radius of the cylindrical floor, in milli-units.
pub const FLOOR_RADIUS: i64 = 4000;
/// Height of the cylindrical floor, in milli-units.
pub const FLOOR_HEIGHT: i64 = 100;
/// Edge length of the parent cube, in milli-units.
pub const CUBE_EDGE: i64 = 1000;
/// Edge length of each attached child cuboid, in milli-units.
pub const CHILD_EDGE: i64 = 2000;
/// Distance from the parent cube's centre to each child's centre, along x.
pub const CHILD_OFFSET: i64 = 1500;
/// Height at which the parent cube spawns, in milli-units.
pub const SPAWN_HEIGHT: i64 = 4000;

/// How the physics plugin should treat a body: fixed in place, or simulated.
#[derive(Clone, Copy, Debug, PartialEq, Eq, Structural)]
pub enum BodyKind {
    Static,
    Dynamic,
}

/// A collision shape; the body's mesh uses the same dimensions.
#[derive(Clone, Copy, Debug, PartialEq, Eq, Structural)]
pub enum ColliderShape {
    /// A vertical cylinder with the given radius and height, in milli-units.
    Cylinder { radius: i64, height: i64 },
    /// A box with the given edge lengths, in milli-units.
    Cuboid { x_length: i64, y_length: i64, z_length: i64 },
}

/// A cuboid attached to the parent cube, placed relative to its parent.
#[derive(Clone, Copy, Debug, PartialEq, Eq, Structural)]
pub struct ChildCuboid {
    pub shape: ColliderShape,
    pub color: Rgb,
    pub offset: Coord3,
}

/// The static floor body.
#[derive(Clone, Copy, Debug, PartialEq, Eq, Structural)]
pub struct Floor {
    pub body: BodyKind,
    pub shape: ColliderShape,
    pub color: Rgb,
}

/// The dynamic parent cube, its pose at spawn time, and its children.
#[derive(Debug, PartialEq, Eq)]
pub struct ParentCube {
    pub body: BodyKind,
    pub shape: ColliderShape,
    pub color: Rgb,
    pub transform: Transform3,
    pub children: Vec<ChildCuboid>,
}

/// The single point light.
#[derive(Clone, Copy, Debug, PartialEq, Eq, Structural)]
pub struct Light {
    pub shadows_enabled: bool,
    pub position: Coord3,
}

/// The axis a camera takes as "up".
#[derive(Clone, Copy, Debug, PartialEq, Eq, Structural)]
pub enum Axis {
    X,
    Y,
    Z,
}

/// The camera: where it stands, what it looks at, and which way is up.
#[derive(Clone, Copy, Debug, PartialEq, Eq, Structural)]
pub struct Camera {
    pub position: Coord3,
    pub target: Coord3,
    pub up: Axis,
}

/// Everything the demo spawns at startup.
#[derive(Debug, PartialEq, Eq)]
pub struct Scene {
    pub floor: Floor,
    pub cube: ParentCube,
    pub light: Light,
    pub camera: Camera,
}

/// The pose the parent cube spawns with, and that a reset restores:
/// at the origin, `SPAWN_HEIGHT` up, unrotated and unscaled.
pub open spec fn spawn_pose() -> Transform3 {
    pose_at(Coord3 { x: 0, y: SPAWN_HEIGHT, z: 0 })
}

/// The floor: a static white cylinder at the origin.
pub open spec fn floor_spec() -> Floor {
    Floor {
        body: BodyKind::Static,
        shape: ColliderShape::Cylinder { radius: FLOOR_RADIUS, height: FLOOR_HEIGHT },
        color: white(),
    }
}

/// The child cuboid `CHILD_OFFSET` milli-units along positive x.
pub open spec fn child_plus_x_spec() -> ChildCuboid {
    ChildCuboid {
        shape: ColliderShape::Cuboid {
            x_length: CHILD_EDGE,
            y_length: CHILD_EDGE,
            z_length: CHILD_EDGE,
        },
        color: Rgb { r: 255, g: 124, b: 144 },
        offset: Coord3 { x: CHILD_OFFSET, y: 0, z: 0 },
    }
}

/// The child cuboid `CHILD_OFFSET` milli-units along negative x.
pub open spec fn child_minus_x_spec() -> ChildCuboid {
    ChildCuboid {
        shape: ColliderShape::Cuboid {
            x_length: CHILD_EDGE,
            y_length: CHILD_EDGE,
            z_length: CHILD_EDGE,
        },
        color: Rgb { r: 144, g: 255, b: 124 },
        offset: Coord3 { x: (-CHILD_OFFSET) as i64, y: 0, z: 0 },
    }
}

/// The parent cube's own shape: a unit cube.
pub open spec fn cube_shape_spec() -> ColliderShape {
    ColliderShape::Cuboid { x_length: CUBE_EDGE, y_length: CUBE_EDGE, z_length: CUBE_EDGE }
}

/// The parent cube's colour.
pub open spec fn cube_color_spec() -> Rgb {
    Rgb { r: 124, g: 144, b: 255 }
}

/// The point light: shadows on, above and beside the scene.
pub open spec fn light_spec() -> Light {
    Light { shadows_enabled: true, position: Coord3 { x: 4000, y: 8000, z: 4000 } }
}

/// The camera: behind and above the cube, looking at the origin, y up.
pub open spec fn camera_spec() -> Camera {
    Camera {
        position: Coord3 { x: (-500) as i64, y: 4500, z: 9000 },
        target: zero3(),
        up: Axis::Y,
    }
}

/// Builds the whole startup scene.  The postcondition pins every entity:
/// the floor, the parent cube with exactly its two children (positive-x
/// first), the light and the camera.
pub fn build_scene() -> (s: Scene)
    ensures
        s.floor == floor_spec(),
        s.cube.body == BodyKind::Dynamic,
        s.cube.shape == cube_shape_spec(),
        s.cube.color == cube_color_spec(),
        s.cube.transform == spawn_pose(),
        s.cube.children@.len() == 2,
        s.cube.children@[0] == child_plus_x_spec(),
        s.cube.children@[1] == child_minus_x_spec(),
        s.light == light_spec(),
        s.camera == camera_spec(),
{
    let mut children: Vec<ChildCuboid> = Vec::new();
    children.push(
        ChildCuboid {
            shape: ColliderShape::Cuboid {
                x_length: CHILD_EDGE,
                y_length: CHILD_EDGE,
                z_length: CHILD_EDGE,
            },
            color: Rgb { r: 255, g: 124, b: 144 },
            offset: Coord3 { x: CHILD_OFFSET, y: 0, z: 0 },
        },
    );
    children.push(
        ChildCuboid {
            shape: ColliderShape::Cuboid {
                x_length: CHILD_EDGE,
                y_length: CHILD_EDGE,
                z_length: CHILD_EDGE,
            },
            color: Rgb { r: 144, g: 255, b: 124 },
            offset: Coord3 { x: -CHILD_OFFSET, y: 0, z: 0 },
        },
    );
    Scene {
        floor: Floor {
            body: BodyKind::Static,
            shape: ColliderShape::Cylinder { radius: FLOOR_RADIUS, height: FLOOR_HEIGHT },
            color: Rgb { r: 255, g: 255, b: 255 },
        },
        cube: ParentCube {
            body: BodyKind::Dynamic,
            shape: ColliderShape::Cuboid {
                x_length: CUBE_EDGE,
                y_length: CUBE_EDGE,
                z_length: CUBE_EDGE,
            },
            color: Rgb { r: 124, g: 144, b: 255 },
            transform: Transform3::from_translation(Coord3 { x: 0, y: SPAWN_HEIGHT, z: 0 }),
            children,
        },
        light: Light { shadows_enabled: true, position: Coord3 { x: 4000, y: 8000, z: 4000 } },
        camera: Camera {
            position: Coord3 { x: -500, y: 4500, z: 9000 },
            target: Coord3 { x: 0, y: 0, z: 0 },
            up: Axis::Y,
        },
    }
}

} // verus!
