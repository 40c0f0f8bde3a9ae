//! Texture data and the lookup-by-coordinate capability the tracer consumes.
//!
//! A texture is a row-major grid of fixed-point colors, with an optional
//! grid of tangent-space normals of the same size (empty when the texture
//! carries no normal map).  Out-of-range pixel indices clamp to the last
//! row or column, absorbing the spill of scaled texture coordinates.
use vstd::prelude::*;
use crate::vec3::Vec3;

verus! {

pub struct Texture {
    pub width: u32,
    pub height: u32,
    pub pixels: Vec<Vec3>,
    pub normals: Vec<Vec3>,
}

/// The set of textures a scene samples from, and which of them, if any,
/// wraps the sky.
pub struct TextureManager {
    pub textures: Vec<Texture>,
    pub skybox: Option<u32>,
}

/// A texture is non-degenerate and its grids match its size.
pub open spec fn tex_wf(t: Texture) -> bool {
    &&& t.width > 0
    &&& t.height > 0
    &&& t.pixels@.len() == (t.width as int) * (t.height as int)
    &&& (t.normals@.len() == 0 || t.normals@.len() == (t.width as int) * (t.height as int))
}

/// Every texture is well formed and the skybox reference resolves.
pub open spec fn tm_wf(tm: TextureManager) -> bool {
    &&& forall|i: int| 0 <= i < tm.textures@.len() ==> #[trigger] tex_wf(tm.textures@[i])
    &&& match tm.skybox {
        Some(id) => (id as int) < tm.textures@.len(),
        None => true,
    }
}

/// Clamp a nonnegative index below `n`.
pub open spec fn clamp_index_s(i: int, n: int) -> int {
    if i < n {
        i
    } else {
        n - 1
    }
}

pub open spec fn pixel_at_s(t: Texture, tx: int, ty: int) -> Vec3 {
    let px = clamp_index_s(tx, t.width as int);
    let py = clamp_index_s(ty, t.height as int);
    t.pixels@[py * (t.width as int) + px]
}

pub open spec fn normal_at_s(t: Texture, tx: int, ty: int) -> Option<Vec3> {
    if t.normals@.len() == 0 {
        None
    } else {
        let px = clamp_index_s(tx, t.width as int);
        let py = clamp_index_s(ty, t.height as int);
        Some(t.normals@[py * (t.width as int) + px])
    }
}

proof fn lemma_grid_index(px: int, py: int, w: int, h: int)
    requires
        0 <= px < w,
        0 <= py < h,
    ensures
        0 <= py * w + px < h * w,
        h * w == w * h,
{
    assert(py * w + px < h * w) by (nonlinear_arith)
        requires
            0 <= px < w,
            0 <= py < h;
    assert(0 <= py * w) by (nonlinear_arith)
        requires
            0 <= py,
            0 < w;
    assert(h * w == w * h) by (nonlinear_arith);
}

impl TextureManager {
    pub fn new() -> (r: TextureManager)
        ensures
            r.textures@.len() == 0,
            r.skybox is None,
    {
        TextureManager { textures: Vec::new(), skybox: None }
    }

    /// Width and height of a texture.
    pub fn size_of(&self, id: u32) -> (r: (u32, u32))
        requires
            (id as int) < self.textures@.len(),
        ensures
            r.0 == self.textures@[id as int].width,
            r.1 == self.textures@[id as int].height,
    {
        let t = &self.textures[id as usize];
        (t.width, t.height)
    }

    /// The color stored at a pixel, indices clamped into the grid.
    pub fn get_pixel_color(&self, id: u32, tx: u32, ty: u32) -> (r: Vec3)
        requires
            tm_wf(*self),
            (id as int) < self.textures@.len(),
        ensures
            r == pixel_at_s(self.textures@[id as int], tx as int, ty as int),
    {
        proof {
            assert(tex_wf(self.textures@[id as int]));
        }
        let t = &self.textures[id as usize];
        let px: u32 = if tx < t.width {
            tx
        } else {
            t.width - 1
        };
        let py: u32 = if ty < t.height {
            ty
        } else {
            t.height - 1
        };
        let n = t.pixels.len();
        proof {
            lemma_grid_index(px as int, py as int, t.width as int, t.height as int);
        }
        let idx: usize = (py as usize) * (t.width as usize) + (px as usize);
        t.pixels[idx]
    }

    /// The tangent-space normal stored at a pixel, if the texture carries
    /// a normal map; indices clamped into the grid.
    pub fn get_normal_from_map(&self, id: u32, tx: u32, ty: u32) -> (r: Option<Vec3>)
        requires
            tm_wf(*self),
            (id as int) < self.textures@.len(),
        ensures
            r == normal_at_s(self.textures@[id as int], tx as int, ty as int),
    {
        proof {
            assert(tex_wf(self.textures@[id as int]));
        }
        let t = &self.textures[id as usize];
        if t.normals.len() == 0 {
            None
        } else {
            let px: u32 = if tx < t.width {
                tx
            } else {
                t.width - 1
            };
            let py: u32 = if ty < t.height {
                ty
            } else {
                t.height - 1
            };
            let n = t.normals.len();
            proof {
                lemma_grid_index(px as int, py as int, t.width as int, t.height as int);
            }
            let idx: usize = (py as usize) * (t.width as usize) + (px as usize);
            Some(t.normals[idx])
        }
    }
}

/// Scale a UV coordinate in [0, 1] to a pixel index of a grid of `n`
/// cells, truncating; negative coordinates give the first cell.
pub open spec fn uv_px_s(u: int, n: int) -> int {
    if u <= 0 {
        0
    } else {
        let p = (u * n) / (crate::fixed::FX_ONE as int);
        if p > u32::MAX as int {
            u32::MAX as int
        } else {
            p
        }
    }
}

/// Scale a UV coordinate to a pixel index (see `uv_px_s`).
pub fn uv_px(u: i64, n: u32) -> (r: u32)
    ensures
        r as int == uv_px_s(u as int, n as int),
{
    if u <= 0 {
        0
    } else {
        proof {
            assert((u as int) * (n as int) < 0x100000000000000000000000000000000)
                by (nonlinear_arith)
                requires
                    0 < u as int,
                    (u as int) < 0x8000000000000000,
                    (n as int) <= 0xffffffff;
        }
        let p: u128 = ((u as u128) * (n as u128)) / (crate::fixed::FX_ONE as u128);
        if p > u32::MAX as u128 {
            u32::MAX
        } else {
            p as u32
        }
    }
}

} // verus!
