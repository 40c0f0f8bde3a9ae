//! Surface materials and the point light.
use vstd::prelude::*;
use crate::fixed::{FX_ONE, fx_clamp, fx_clamp_s, tdiv};
use crate::vec3::Vec3;

verus! {

/// A display color with one byte per channel.
#[derive(Clone, Copy)]
pub struct Rgb {
    pub r: u8,
    pub g: u8,
    pub b: u8,
}

/// How a surface reacts to light.
///
/// `albedo` holds the four blending weights
/// [diffuse, specular, reflectivity, transparency] as fixed-point values;
/// `specular` is the Phong exponent; `texture_id` and `normal_map_id`
/// name entries of a [`crate::texture::TextureManager`]; `emissive`
/// is added to the local shading unconditionally.
#[derive(Clone, Copy)]
pub struct Material {
    pub diffuse: Vec3,
    pub specular: u32,
    pub albedo: [i64; 4],
    pub refractive_index: i64,
    pub texture_id: Option<u32>,
    pub normal_map_id: Option<u32>,
    pub emissive: Vec3,
}

impl Material {
    #[allow(clippy::too_many_arguments)]
    pub fn new(
        diffuse: Vec3,
        specular: u32,
        albedo: [i64; 4],
        refractive_index: i64,
        texture_id: Option<u32>,
        normal_map_id: Option<u32>,
        emissive: Vec3,
    ) -> (r: Material)
        ensures
            r == (Material {
                diffuse,
                specular,
                albedo,
                refractive_index,
                texture_id,
                normal_map_id,
                emissive,
            }),
    {
        Material { diffuse, specular, albedo, refractive_index, texture_id, normal_map_id, emissive }
    }
}

/// A point light: position, byte color, fixed-point intensity.
#[derive(Clone, Copy)]
pub struct Light {
    pub position: Vec3,
    pub color: Rgb,
    pub intensity: i64,
}

impl Light {
    pub fn new(position: Vec3, color: Rgb, intensity: i64) -> (r: Light)
        ensures
            r == (Light { position, color, intensity }),
    {
        Light { position, color, intensity }
    }
}

/// A byte channel as a fixed value in [0, 1].
pub open spec fn channel_fx_s(c: u8) -> int {
    tdiv((c as int) * (FX_ONE as int), 255)
}

/// A byte channel as a fixed value in [0, 1].
pub fn channel_fx(c: u8) -> (r: i64)
    ensures
        r as int == channel_fx_s(c),
{
    proof {
        assert((c as int) * (FX_ONE as int) <= 255 * 65536) by (nonlinear_arith)
            requires
                (c as int) <= 255;
    }
    (((c as u64) * (FX_ONE as u64)) / 255) as i64
}

/// A fixed color channel clamped into [0, 1] and scaled to a byte.
pub open spec fn channel_byte_s(v: int) -> int {
    tdiv(fx_clamp_s(v, 0, FX_ONE as int) * 255, FX_ONE as int)
}

/// A fixed-point color clamped into the unit cube and scaled to bytes.
pub fn vector3_to_color(v: &Vec3) -> (r: Rgb)
    ensures
        r.r as int == channel_byte_s(v@.x),
        r.g as int == channel_byte_s(v@.y),
        r.b as int == channel_byte_s(v@.z),
{
    let cr: i64 = fx_clamp(v.x, 0, FX_ONE);
    let cg: i64 = fx_clamp(v.y, 0, FX_ONE);
    let cb: i64 = fx_clamp(v.z, 0, FX_ONE);
    Rgb {
        r: (((cr as u64) * 255) / (FX_ONE as u64)) as u8,
        g: (((cg as u64) * 255) / (FX_ONE as u64)) as u8,
        b: (((cb as u64) * 255) / (FX_ONE as u64)) as u8,
    }
}

} // verus!
