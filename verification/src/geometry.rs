//! Exact scene geometry: positions, scales and colours as integer data.
//!
//! The engine works in `f32` world units; the demo only ever uses values
//! with at most three decimal places, so the plan stores them in
//! thousandths (milliunits). The runtime shell divides by 1000 when it
//! hands them to the engine.

use vstd::prelude::*;

verus! {

/// A point or scale in world space, in thousandths of a world unit.
#[derive(Clone, Copy, Debug, PartialEq, Eq, Structural)]
pub struct Vec3Milli {
    pub x: i64,
    pub y: i64,
    pub z: i64,
}

impl Vec3Milli {
    pub fn new(x: i64, y: i64, z: i64) -> (v: Vec3Milli)
        ensures
            v == (Vec3Milli { x, y, z }),
    {
        Vec3Milli { x, y, z }
    }
}

/// An RGB colour with each channel in thousandths (0 = black channel,
/// 1000 = full channel).
#[derive(Clone, Copy, Debug, PartialEq, Eq, Structural)]
pub struct ColorMilli {
    pub r: u32,
    pub g: u32,
    pub b: u32,
}

/// Centre of the demo area; the floor sits here and the camera and light
/// are aimed at it.
pub open spec fn spec_demo_coordinates() -> Vec3Milli {
    Vec3Milli { x: 0, y: 0, z: 0 }
}

/// Fixed world position the camera spawns at (0.0, 4.37, 14.77).
pub open spec fn spec_camera_spawn() -> Vec3Milli {
    Vec3Milli { x: 0, y: 4370, z: 14770 }
}

/// Fixed offset the directional light shines from (15.0, 20.0, 0.0).
pub open spec fn spec_light_spawn() -> Vec3Milli {
    Vec3Milli { x: 15000, y: 20000, z: 0 }
}

/// Scale of the floor box (1.0, 0.3, 1.0).
pub open spec fn spec_floor_scale() -> Vec3Milli {
    Vec3Milli { x: 1000, y: 300, z: 1000 }
}

/// Dark grey the camera clears to (0.1, 0.1, 0.1).
pub open spec fn spec_clear_color() -> ColorMilli {
    ColorMilli { r: 100, g: 100, b: 100 }
}

/// The engine's lime green, rgb(0.2, 0.8, 0.2), in thousandths; used for
/// the grid's axis lines.
pub open spec fn spec_lime_green() -> ColorMilli {
    ColorMilli { r: 200, g: 800, b: 200 }
}

pub fn demo_coordinates() -> (v: Vec3Milli)
    ensures
        v == spec_demo_coordinates(),
{
    Vec3Milli { x: 0, y: 0, z: 0 }
}

pub fn camera_spawn() -> (v: Vec3Milli)
    ensures
        v == spec_camera_spawn(),
{
    Vec3Milli { x: 0, y: 4370, z: 14770 }
}

pub fn light_spawn() -> (v: Vec3Milli)
    ensures
        v == spec_light_spawn(),
{
    Vec3Milli { x: 15000, y: 20000, z: 0 }
}

pub fn floor_scale() -> (v: Vec3Milli)
    ensures
        v == spec_floor_scale(),
{
    Vec3Milli { x: 1000, y: 300, z: 1000 }
}

} // verus!
