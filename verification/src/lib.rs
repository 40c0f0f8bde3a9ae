//! A software ray tracer whose numeric core is verified end to end.
//!
//! All geometry and shading is carried out in signed 16.16 fixed-point
//! arithmetic: a raw `i64` counts units of 1/65536, and every operation
//! saturates at a common bound instead of overflowing.  Each executable
//! function is specified exactly against a mathematical mirror written
//! over unbounded integers, so the color of every pixel is pinned down
//! by the contracts.
use vstd::prelude::*;

verus! {

pub mod fixed;

pub mod trig;

pub mod vec3;

pub mod material;

pub mod texture;

pub mod intersect;

pub mod sphere;

pub mod cube;

pub mod camera;

pub mod engine;

} // verus!

