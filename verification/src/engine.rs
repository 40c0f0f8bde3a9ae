//! The shading engine: nearest-hit search, hard shadows, Phong shading,
//! and recursive reflection/refraction with a hard depth cap.
//!
//! Every executable function returns exactly the value of its spec-level
//! mirror, so the color of a ray is a function of the scene alone.  The
//! recursion of `cast_ray` is bounded: above depth 3 it stops and
//! returns the environment color.
use vstd::prelude::*;
use crate::cube::{Cube, cube_intersect_s};
use crate::camera::{Camera, basis_change_s};
use crate::fixed::{
    FX_HALF, FX_ONE, FX_TWO, fx_add, fx_add_s, fx_div, fx_div_s, fx_max, fx_max_s,
    fx_mul, fx_mul_s, fx_neg, fx_neg_s, fx_of_int, fx_of_int_s, fx_pow, fx_pow_s,
    fx_sqrt, fx_sqrt_s, fx_sub, fx_sub_s, fx_clamp, fx_clamp_s,
};
use crate::intersect::{HitG, Intersect, opt_hit_view};
use crate::material::{Light, Material, channel_fx, channel_fx_s};
use crate::texture::{TextureManager, normal_at_s, pixel_at_s, tex_wf, tm_wf, uv_px, uv_px_s};
use crate::trig::{FX_PI, FX_TWO_PI, asin_fx, asin_s, atan2_fx, atan2_s, cos_fx, cos_s, sin_fx, sin_s};
use crate::vec3::{
    Vec3, Vec3i, v_add_s, v_cross_s, v_dot_s, v_length_s, v_neg_s, v_normalize_s,
    v_scale_s, v_sub_s, v_zero_s,
};

verus! {

/// Bias (about 1e-4) pushing a secondary ray's origin off its surface.
pub const ORIGIN_BIAS: i64 = 7;
/// Band limits of the procedural sky: 0.3, the 0.4 band width, 0.7.
pub const SKY_T_LOW: i64 = 19661;
pub const SKY_T_BAND: i64 = 26214;
pub const SKY_T_HIGH: i64 = 45875;
/// Cloud perturbation: frequencies 3 and 2, amplitude 0.1.
pub const FX_THREE: i64 = 196608;
pub const CLOUD_AMP: i64 = 6554;

/// A material's texture references resolve in the texture set.
pub open spec fn mat_wf(m: Material, tm: TextureManager) -> bool {
    &&& match m.texture_id {
        Some(id) => (id as int) < tm.textures@.len(),
        None => true,
    }
    &&& match m.normal_map_id {
        Some(id) => (id as int) < tm.textures@.len(),
        None => true,
    }
}

/// The texture set is well formed and every material of the scene
/// resolves in it.
pub open spec fn scene_wf(objects: Seq<Cube>, tm: TextureManager) -> bool {
    &&& tm_wf(tm)
    &&& forall|i: int|
        0 <= i < objects.len() ==> #[trigger] mat_wf(objects[i].material, tm)
}

/// The model of a possible refraction direction.
pub open spec fn opt_dir_view(r: Option<Vec3>) -> Option<Vec3i> {
    match r {
        Some(v) => Some(v@),
        None => None,
    }
}

/// The hit point pushed along the normal, away from the side the
/// direction leaves through.
pub open spec fn offset_origin_s(h: HitG, dir: Vec3i) -> Vec3i {
    let offset = v_scale_s(h.normal, ORIGIN_BIAS as int);
    if v_dot_s(dir, h.normal) < 0 {
        v_sub_s(h.point, offset)
    } else {
        v_add_s(h.point, offset)
    }
}

/// Mirror reflection of `i` about the normal `n`.
pub open spec fn reflect_s(i: Vec3i, n: Vec3i) -> Vec3i {
    v_sub_s(i, v_scale_s(v_scale_s(n, FX_TWO as int), v_dot_s(i, n)))
}

/// The clamped incidence cosine of Snell refraction.
pub open spec fn refract_cosi_s(i: Vec3i, n: Vec3i) -> int {
    fx_clamp_s(v_dot_s(i, n), -(FX_ONE as int), FX_ONE as int)
}

/// The ratio of refractive indices; a positive incidence cosine means
/// the ray exits the medium, swapping the sides.
pub open spec fn refract_eta_s(i: Vec3i, n: Vec3i, refractive_index: int) -> int {
    if refract_cosi_s(i, n) > 0 {
        fx_div_s(refractive_index, FX_ONE as int)
    } else {
        fx_div_s(FX_ONE as int, refractive_index)
    }
}

/// The discriminant of Snell's law; negative exactly on total internal
/// reflection.
pub open spec fn refract_k_s(i: Vec3i, n: Vec3i, refractive_index: int) -> int {
    let cosi0 = refract_cosi_s(i, n);
    let cosi = if cosi0 > 0 {
        cosi0
    } else {
        fx_neg_s(cosi0)
    };
    let eta = refract_eta_s(i, n, refractive_index);
    fx_sub_s(
        FX_ONE as int,
        fx_mul_s(fx_mul_s(eta, eta), fx_sub_s(FX_ONE as int, fx_mul_s(cosi, cosi))),
    )
}

/// Snell refraction of `i` through a surface of the given refractive
/// index; the entering/exiting sides swap on the sign of the incidence
/// cosine, and a negative discriminant (total internal reflection)
/// gives `None`.
pub open spec fn refract_s(i: Vec3i, n: Vec3i, refractive_index: int) -> Option<Vec3i> {
    let cosi0 = refract_cosi_s(i, n);
    let nn = if cosi0 > 0 {
        v_neg_s(n)
    } else {
        n
    };
    let cosi = if cosi0 > 0 {
        cosi0
    } else {
        fx_neg_s(cosi0)
    };
    let eta = refract_eta_s(i, n, refractive_index);
    let k = refract_k_s(i, n, refractive_index);
    if k < 0 {
        None
    } else {
        Some(
            v_add_s(
                v_scale_s(i, eta),
                v_scale_s(nn, fx_sub_s(fx_mul_s(eta, cosi), fx_sqrt_s(k))),
            ),
        )
    }
}

pub open spec fn sky_blue_s() -> Vec3i {
    Vec3i { x: 26214, y: 39322, z: 65536 }
}

pub open spec fn horizon_white_s() -> Vec3i {
    Vec3i { x: 58982, y: 58982, z: 65536 }
}

pub open spec fn cloud_white_s() -> Vec3i {
    Vec3i { x: 65536, y: 65536, z: 65536 }
}

/// Environment color of a direction: a panoramic sample when a skybox
/// texture is set, else a deterministic procedural gradient of three
/// vertical bands with a sinusoidal cloud perturbation in the middle.
pub open spec fn skybox_s(dir: Vec3i, tm: TextureManager) -> Vec3i {
    let d = v_normalize_s(dir);
    match tm.skybox {
        Some(id) => {
            let t = tm.textures@[id as int];
            let u = fx_add_s(FX_HALF as int, fx_div_s(atan2_s(d.x, d.z), FX_TWO_PI as int));
            let v = fx_sub_s(FX_HALF as int, fx_div_s(asin_s(d.y), FX_PI as int));
            pixel_at_s(t, uv_px_s(u, t.width as int), uv_px_s(v, t.height as int))@
        },
        None => {
            let t = fx_mul_s(fx_add_s(d.y, FX_ONE as int), FX_HALF as int);
            if t < SKY_T_LOW as int {
                let k = fx_div_s(t, SKY_T_LOW as int);
                v_add_s(
                    v_scale_s(horizon_white_s(), fx_sub_s(FX_ONE as int, k)),
                    v_scale_s(sky_blue_s(), k),
                )
            } else if t < SKY_T_HIGH as int {
                let k = fx_div_s(fx_sub_s(t, SKY_T_LOW as int), SKY_T_BAND as int);
                let cf = fx_mul_s(
                    fx_mul_s(
                        sin_s(fx_mul_s(d.x, FX_THREE as int)),
                        cos_s(fx_mul_s(d.z, FX_TWO as int)),
                    ),
                    CLOUD_AMP as int,
                );
                let base = v_add_s(
                    v_scale_s(sky_blue_s(), fx_sub_s(FX_ONE as int, k)),
                    v_scale_s(cloud_white_s(), k),
                );
                v_add_s(base, Vec3i { x: cf, y: cf, z: cf })
            } else {
                sky_blue_s()
            }
        },
    }
}

/// The shading normal: the geometric normal, unless the material has a
/// normal map, which is sampled at the hit UV and rotated from tangent
/// space into world space.
pub open spec fn shading_normal_s(h: HitG, tm: TextureManager) -> Vec3i {
    match h.material.normal_map_id {
        Some(id) => {
            let t = tm.textures@[id as int];
            let tx = uv_px_s(h.u, t.width as int);
            let ty = uv_px_s(h.v, t.height as int);
            match normal_at_s(t, tx, ty) {
                Some(tn) => {
                    let tangent = v_normalize_s(
                        Vec3i { x: h.normal.y, y: fx_neg_s(h.normal.x), z: 0 },
                    );
                    let bitangent = v_cross_s(h.normal, tangent);
                    v_normalize_s(
                        Vec3i {
                            x: fx_add_s(
                                fx_add_s(
                                    fx_mul_s(tn@.x, tangent.x),
                                    fx_mul_s(tn@.y, bitangent.x),
                                ),
                                fx_mul_s(tn@.z, h.normal.x),
                            ),
                            y: fx_add_s(
                                fx_add_s(
                                    fx_mul_s(tn@.x, tangent.y),
                                    fx_mul_s(tn@.y, bitangent.y),
                                ),
                                fx_mul_s(tn@.z, h.normal.y),
                            ),
                            z: fx_add_s(
                                fx_add_s(
                                    fx_mul_s(tn@.x, tangent.z),
                                    fx_mul_s(tn@.y, bitangent.z),
                                ),
                                fx_mul_s(tn@.z, h.normal.z),
                            ),
                        },
                    )
                },
                None => h.normal,
            }
        },
        None => h.normal,
    }
}

/// The surface color: a texture sample at the hit UV when the material
/// has a texture, else its flat diffuse color.
pub open spec fn diffuse_color_s(h: HitG, tm: TextureManager) -> Vec3i {
    match h.material.texture_id {
        Some(id) => {
            let t = tm.textures@[id as int];
            pixel_at_s(t, uv_px_s(h.u, t.width as int), uv_px_s(h.v, t.height as int))@
        },
        None => h.material.diffuse@,
    }
}

/// Whether one cube blocks the light from the hit point: its shadow-ray
/// intersection lies strictly closer than the light.
pub open spec fn blocks_s(c: Cube, h: HitG, light: Light) -> bool {
    let light_dir = v_normalize_s(v_sub_s(light.position@, h.point));
    let light_distance = v_length_s(v_sub_s(light.position@, h.point));
    let origin = offset_origin_s(h, light_dir);
    match cube_intersect_s(c, origin, light_dir) {
        Some(sh) => sh.distance < light_distance,
        None => false,
    }
}

/// Binary occlusion: one when any cube blocks the light, else zero.
pub open spec fn cast_shadow_s(objects: Seq<Cube>, h: HitG, light: Light) -> int {
    if exists|i: int| 0 <= i < objects.len() && blocks_s(#[trigger] objects[i], h, light) {
        FX_ONE as int
    } else {
        0
    }
}

/// The nearest forward hit over the scene, scanned in order with strict
/// improvement, so the first of equally distant hits wins.
pub open spec fn nearest_s(objects: Seq<Cube>, o: Vec3i, d: Vec3i) -> Option<HitG>
    decreases objects.len(),
{
    if objects.len() == 0 {
        None
    } else {
        let prev = nearest_s(objects.drop_last(), o, d);
        match cube_intersect_s(objects.last(), o, d) {
            None => prev,
            Some(nh) => match prev {
                None => Some(nh),
                Some(ph) => if nh.distance < ph.distance {
                    Some(nh)
                } else {
                    Some(ph)
                },
            },
        }
    }
}

/// Local Phong shading of a hit under the one light: shadowed diffuse
/// and specular terms blended by the first two albedo weights, plus the
/// material's emissive color.
pub open spec fn phong_s(
    objects: Seq<Cube>,
    o: Vec3i,
    h: HitG,
    normal: Vec3i,
    light: Light,
    tm: TextureManager,
) -> Vec3i {
    let light_dir = v_normalize_s(v_sub_s(light.position@, h.point));
    let view_dir = v_normalize_s(v_sub_s(o, h.point));
    let reflect_dir = v_normalize_s(reflect_s(v_neg_s(light_dir), normal));
    let shadow_intensity = cast_shadow_s(objects, h, light);
    let light_intensity = fx_mul_s(
        light.intensity as int,
        fx_sub_s(FX_ONE as int, shadow_intensity),
    );
    let diffuse_color = diffuse_color_s(h, tm);
    let diffuse_intensity = fx_mul_s(
        fx_max_s(v_dot_s(normal, light_dir), 0),
        light_intensity,
    );
    let diffuse = v_scale_s(diffuse_color, diffuse_intensity);
    let specular_intensity = fx_mul_s(
        fx_pow_s(fx_max_s(v_dot_s(view_dir, reflect_dir), 0), h.material.specular as nat),
        light_intensity,
    );
    let light_color = Vec3i {
        x: channel_fx_s(light.color.r),
        y: channel_fx_s(light.color.g),
        z: channel_fx_s(light.color.b),
    };
    let specular = v_scale_s(light_color, specular_intensity);
    let alb0 = h.material.albedo@[0] as int;
    let alb1 = h.material.albedo@[1] as int;
    v_add_s(
        v_add_s(v_scale_s(diffuse, alb0), v_scale_s(specular, alb1)),
        h.material.emissive@,
    )
}

/// The color a ray gathers: the environment when nothing is hit or the
/// depth cap is passed; otherwise Phong shading blended with recursive
/// reflection and refraction by the material's albedo weights, the
/// three weights deliberately not renormalized.
pub open spec fn cast_ray_s(
    objects: Seq<Cube>,
    o: Vec3i,
    d: Vec3i,
    light: Light,
    tm: TextureManager,
    depth: int,
) -> Vec3i
    decreases 4 - depth,
{
    if depth > 3 {
        skybox_s(d, tm)
    } else {
        match nearest_s(objects, o, d) {
            None => skybox_s(d, tm),
            Some(h) => {
                let normal = shading_normal_s(h, tm);
                let phong = phong_s(objects, o, h, normal, light, tm);
                let reflectivity = h.material.albedo@[2] as int;
                let reflect_color = if reflectivity > 0 {
                    let rdir = v_normalize_s(reflect_s(d, normal));
                    cast_ray_s(objects, offset_origin_s(h, rdir), rdir, light, tm, depth + 1)
                } else {
                    v_zero_s()
                };
                let transparency = h.material.albedo@[3] as int;
                let refract_color = if transparency > 0 {
                    match refract_s(d, normal, h.material.refractive_index as int) {
                        Some(rdir) => cast_ray_s(
                            objects,
                            offset_origin_s(h, rdir),
                            rdir,
                            light,
                            tm,
                            depth + 1,
                        ),
                        None => {
                            let rdir = v_normalize_s(reflect_s(d, normal));
                            cast_ray_s(
                                objects,
                                offset_origin_s(h, rdir),
                                rdir,
                                light,
                                tm,
                                depth + 1,
                            )
                        },
                    }
                } else {
                    v_zero_s()
                };
                let weight = fx_sub_s(fx_sub_s(FX_ONE as int, reflectivity), transparency);
                v_add_s(
                    v_add_s(
                        v_scale_s(phong, weight),
                        v_scale_s(reflect_color, reflectivity),
                    ),
                    v_scale_s(refract_color, transparency),
                )
            },
        }
    }
}

/// Push a secondary ray's origin off the surface (see `offset_origin_s`).
pub fn offset_origin(intersect: &Intersect, direction: &Vec3) -> (r: Vec3)
    ensures
        r@ == offset_origin_s(intersect@, direction@),
{
    let offset = intersect.normal.scale(ORIGIN_BIAS);
    if direction.dot(&intersect.normal) < 0 {
        intersect.point.sub(&offset)
    } else {
        intersect.point.add(&offset)
    }
}

/// Mirror reflection about a normal (see `reflect_s`).
pub fn reflect(incident: &Vec3, normal: &Vec3) -> (r: Vec3)
    ensures
        r@ == reflect_s(incident@, normal@),
{
    incident.sub(&normal.scale(FX_TWO).scale(incident.dot(normal)))
}

/// Snell refraction, `None` on total internal reflection (see `refract_s`).
pub fn refract(incident: &Vec3, normal: &Vec3, refractive_index: i64) -> (r: Option<Vec3>)
    ensures
        opt_dir_view(r) == refract_s(incident@, normal@, refractive_index as int),
{
    let cosi0 = fx_clamp(incident.dot(normal), -FX_ONE, FX_ONE);
    let nn = if cosi0 > 0 {
        normal.neg()
    } else {
        *normal
    };
    let cosi = if cosi0 > 0 {
        cosi0
    } else {
        fx_neg(cosi0)
    };
    let eta = if cosi0 > 0 {
        fx_div(refractive_index, FX_ONE)
    } else {
        fx_div(FX_ONE, refractive_index)
    };
    let k = fx_sub(FX_ONE, fx_mul(fx_mul(eta, eta), fx_sub(FX_ONE, fx_mul(cosi, cosi))));
    if k < 0 {
        None
    } else {
        Some(incident.scale(eta).add(&nn.scale(fx_sub(fx_mul(eta, cosi), fx_sqrt(k)))))
    }
}

/// Environment color of a direction (see `skybox_s`).
pub fn skybox_color(dir: &Vec3, texture_manager: &TextureManager) -> (r: Vec3)
    requires
        tm_wf(*texture_manager),
    ensures
        r@ == skybox_s(dir@, *texture_manager),
{
    let d = dir.normalized();
    match texture_manager.skybox {
        Some(id) => {
            let u = fx_add(FX_HALF, fx_div(atan2_fx(d.x, d.z), FX_TWO_PI));
            let v = fx_sub(FX_HALF, fx_div(asin_fx(d.y), FX_PI));
            let size = texture_manager.size_of(id);
            let tx = uv_px(u, size.0);
            let ty = uv_px(v, size.1);
            texture_manager.get_pixel_color(id, tx, ty)
        },
        None => {
            let t = fx_mul(fx_add(d.y, FX_ONE), FX_HALF);
            let sky_blue = Vec3::new(26214, 39322, 65536);
            let horizon_white = Vec3::new(58982, 58982, 65536);
            let cloud_white = Vec3::new(65536, 65536, 65536);
            if t < SKY_T_LOW {
                let k = fx_div(t, SKY_T_LOW);
                horizon_white.scale(fx_sub(FX_ONE, k)).add(&sky_blue.scale(k))
            } else if t < SKY_T_HIGH {
                let k = fx_div(fx_sub(t, SKY_T_LOW), SKY_T_BAND);
                let cf = fx_mul(
                    fx_mul(sin_fx(fx_mul(d.x, FX_THREE)), cos_fx(fx_mul(d.z, FX_TWO))),
                    CLOUD_AMP,
                );
                let base = sky_blue.scale(fx_sub(FX_ONE, k)).add(&cloud_white.scale(k));
                base.add(&Vec3::new(cf, cf, cf))
            } else {
                sky_blue
            }
        },
    }
}

/// The shading normal of a hit (see `shading_normal_s`).
fn shading_normal(intersect: &Intersect, texture_manager: &TextureManager) -> (r: Vec3)
    requires
        tm_wf(*texture_manager),
        mat_wf(intersect.material, *texture_manager),
    ensures
        r@ == shading_normal_s(intersect@, *texture_manager),
{
    match intersect.material.normal_map_id {
        Some(id) => {
            let size = texture_manager.size_of(id);
            let tx = uv_px(intersect.u, size.0);
            let ty = uv_px(intersect.v, size.1);
            match texture_manager.get_normal_from_map(id, tx, ty) {
                Some(tex_normal) => {
                    let normal = intersect.normal;
                    let tangent = Vec3::new(normal.y, fx_neg(normal.x), 0).normalized();
                    let bitangent = normal.cross(&tangent);
                    let tw = Vec3::new(
                        fx_add(
                            fx_add(
                                fx_mul(tex_normal.x, tangent.x),
                                fx_mul(tex_normal.y, bitangent.x),
                            ),
                            fx_mul(tex_normal.z, normal.x),
                        ),
                        fx_add(
                            fx_add(
                                fx_mul(tex_normal.x, tangent.y),
                                fx_mul(tex_normal.y, bitangent.y),
                            ),
                            fx_mul(tex_normal.z, normal.y),
                        ),
                        fx_add(
                            fx_add(
                                fx_mul(tex_normal.x, tangent.z),
                                fx_mul(tex_normal.y, bitangent.z),
                            ),
                            fx_mul(tex_normal.z, normal.z),
                        ),
                    );
                    tw.normalized()
                },
                None => intersect.normal,
            }
        },
        None => intersect.normal,
    }
}

/// The surface color of a hit (see `diffuse_color_s`).
fn diffuse_color_of(intersect: &Intersect, texture_manager: &TextureManager) -> (r: Vec3)
    requires
        tm_wf(*texture_manager),
        mat_wf(intersect.material, *texture_manager),
    ensures
        r@ == diffuse_color_s(intersect@, *texture_manager),
{
    match intersect.material.texture_id {
        Some(id) => {
            let size = texture_manager.size_of(id);
            let tx = uv_px(intersect.u, size.0);
            let ty = uv_px(intersect.v, size.1);
            texture_manager.get_pixel_color(id, tx, ty)
        },
        None => intersect.material.diffuse,
    }
}

/// Binary shadow factor of a hit point (see `cast_shadow_s`).
#[verifier::loop_isolation(false)]
#[verifier::rlimit(100)]
pub fn cast_shadow(intersect: &Intersect, light: &Light, objects: &Vec<Cube>) -> (r: i64)
    ensures
        r as int == cast_shadow_s(objects@, intersect@, *light),
{
    let light_dir = light.position.sub(&intersect.point).normalized();
    let light_distance = light.position.sub(&intersect.point).length();
    let shadow_ray_origin = offset_origin(intersect, &light_dir);
    let mut i: usize = 0;
    while i < objects.len()
        invariant
            0 <= i <= objects@.len(),
            forall|j: int| 0 <= j < i ==> !blocks_s(#[trigger] objects@[j], intersect@, *light),
        decreases objects@.len() - i,
    {
        let shadow_intersect = objects[i].ray_intersect(&shadow_ray_origin, &light_dir);
        if let Some(si) = shadow_intersect {
            if si.distance < light_distance {
                proof {
                    assert(blocks_s(objects@[i as int], intersect@, *light));
                }
                return FX_ONE;
            }
        }
        i = i + 1;
    }
    0
}

/// Runtime validation of a scene: returns exactly whether the texture
/// set is well formed and every material reference of the scene
/// resolves, the precondition of `cast_ray` and `render`.  Unverified
/// callers test their scene with this before tracing.
#[verifier::loop_isolation(false)]
#[verifier::rlimit(100)]
pub fn check_scene(objects: &Vec<Cube>, texture_manager: &TextureManager) -> (r: bool)
    ensures
        r == scene_wf(objects@, *texture_manager),
{
    let mut i: usize = 0;
    while i < texture_manager.textures.len()
        invariant
            0 <= i <= texture_manager.textures@.len(),
            forall|j: int|
                0 <= j < i ==> #[trigger] tex_wf(texture_manager.textures@[j]),
        decreases texture_manager.textures@.len() - i,
    {
        let t = &texture_manager.textures[i];
        proof {
            assert((t.width as int) * (t.height as int) < 0x10000000000000000)
                by (nonlinear_arith)
                requires
                    (t.width as int) <= 0xffffffff,
                    (t.height as int) <= 0xffffffff;
        }
        let cells: u64 = (t.width as u64) * (t.height as u64);
        let ok = t.width > 0 && t.height > 0 && t.pixels.len() as u64 == cells && (
        t.normals.len() == 0 || t.normals.len() as u64 == cells);
        if !ok {
            proof {
                assert(!tex_wf(texture_manager.textures@[i as int]));
            }
            return false;
        }
        i = i + 1;
    }
    match texture_manager.skybox {
        Some(id) => {
            if !((id as usize) < texture_manager.textures.len()) {
                return false;
            }
        },
        None => {},
    }
    let mut k: usize = 0;
    while k < objects.len()
        invariant
            0 <= k <= objects@.len(),
            forall|j: int|
                0 <= j < k ==> #[trigger] mat_wf(objects@[j].material, *texture_manager),
        decreases objects@.len() - k,
    {
        let m = &objects[k].material;
        let tex_ok = match m.texture_id {
            Some(id) => (id as usize) < texture_manager.textures.len(),
            None => true,
        };
        let map_ok = match m.normal_map_id {
            Some(id) => (id as usize) < texture_manager.textures.len(),
            None => true,
        };
        if !(tex_ok && map_ok) {
            proof {
                assert(!mat_wf(objects@[k as int].material, *texture_manager));
            }
            return false;
        }
        k = k + 1;
    }
    true
}

/// The nearest forward hit of the ray over the scene (see `nearest_s`).
#[verifier::loop_isolation(false)]
#[verifier::rlimit(100)]
fn nearest_hit(objects: &Vec<Cube>, ray_origin: &Vec3, ray_direction: &Vec3) -> (r: Option<
    Intersect,
>)
    ensures
        opt_hit_view(r) == nearest_s(objects@, ray_origin@, ray_direction@),
{
    let mut best: Option<Intersect> = None;
    let mut i: usize = 0;
    while i < objects.len()
        invariant
            0 <= i <= objects@.len(),
            opt_hit_view(best) == nearest_s(objects@.take(i as int), ray_origin@, ray_direction@),
        decreases objects@.len() - i,
    {
        let candidate = objects[i].ray_intersect(ray_origin, ray_direction);
        let better = match candidate {
            Some(c) => match best {
                Some(b) => c.distance < b.distance,
                None => true,
            },
            None => false,
        };
        proof {
            assert(objects@.take(i + 1).drop_last() =~= objects@.take(i as int));
            assert(objects@.take(i + 1).last() == objects@[i as int]);
        }
        if better {
            best = candidate;
        }
        i = i + 1;
    }
    proof {
        assert(objects@.take(objects@.len() as int) =~= objects@);
    }
    best
}

/// Local Phong shading of a hit (see `phong_s`).
#[verifier::rlimit(100)]
fn phong_color(
    intersect: &Intersect,
    normal: &Vec3,
    ray_origin: &Vec3,
    objects: &Vec<Cube>,
    light: &Light,
    texture_manager: &TextureManager,
) -> (r: Vec3)
    requires
        tm_wf(*texture_manager),
        mat_wf(intersect.material, *texture_manager),
    ensures
        r@ == phong_s(
            objects@,
            ray_origin@,
            intersect@,
            normal@,
            *light,
            *texture_manager,
        ),
{
    let light_dir = light.position.sub(&intersect.point).normalized();
    let view_dir = ray_origin.sub(&intersect.point).normalized();
    let reflect_dir = reflect(&light_dir.neg(), normal).normalized();
    let shadow_intensity = cast_shadow(intersect, light, objects);
    let light_intensity = fx_mul(light.intensity, fx_sub(FX_ONE, shadow_intensity));
    let diffuse_color = diffuse_color_of(intersect, texture_manager);
    let diffuse_intensity = fx_mul(fx_max(normal.dot(&light_dir), 0), light_intensity);
    let diffuse = diffuse_color.scale(diffuse_intensity);
    let specular_intensity = fx_mul(
        fx_pow(fx_max(view_dir.dot(&reflect_dir), 0), intersect.material.specular),
        light_intensity,
    );
    let light_color = Vec3::new(
        channel_fx(light.color.r),
        channel_fx(light.color.g),
        channel_fx(light.color.b),
    );
    let specular = light_color.scale(specular_intensity);
    diffuse.scale(intersect.material.albedo[0]).add(
        &specular.scale(intersect.material.albedo[1]),
    ).add(&intersect.material.emissive)
}

/// The color gathered along a ray (see `cast_ray_s`).
#[verifier::loop_isolation(false)]
#[verifier::rlimit(100)]
pub fn cast_ray(
    ray_origin: &Vec3,
    ray_direction: &Vec3,
    objects: &Vec<Cube>,
    light: &Light,
    texture_manager: &TextureManager,
    depth: u32,
) -> (r: Vec3)
    requires
        scene_wf(objects@, *texture_manager),
    ensures
        r@ == cast_ray_s(
            objects@,
            ray_origin@,
            ray_direction@,
            *light,
            *texture_manager,
            depth as int,
        ),
    decreases 4 - depth as int,
{
    if depth > 3 {
        return skybox_color(ray_direction, texture_manager);
    }
    let best = nearest_hit(objects, ray_origin, ray_direction);
    match best {
        None => skybox_color(ray_direction, texture_manager),
        Some(intersect) => {
            proof {
                lemma_nearest_mat_wf(objects@, ray_origin@, ray_direction@, *texture_manager);
            }
            let normal = shading_normal(&intersect, texture_manager);
            let phong = phong_color(
                &intersect,
                &normal,
                ray_origin,
                objects,
                light,
                texture_manager,
            );
            let reflectivity = intersect.material.albedo[2];
            let reflect_color = if reflectivity > 0 {
                let rdir = reflect(ray_direction, &normal).normalized();
                let rorigin = offset_origin(&intersect, &rdir);
                cast_ray(&rorigin, &rdir, objects, light, texture_manager, depth + 1)
            } else {
                Vec3::zero()
            };
            let transparency = intersect.material.albedo[3];
            let refract_color = if transparency > 0 {
                match refract(ray_direction, &normal, intersect.material.refractive_index) {
                    Some(rdir) => {
                        let rorigin = offset_origin(&intersect, &rdir);
                        cast_ray(&rorigin, &rdir, objects, light, texture_manager, depth + 1)
                    },
                    None => {
                        let rdir = reflect(ray_direction, &normal).normalized();
                        let rorigin = offset_origin(&intersect, &rdir);
                        cast_ray(&rorigin, &rdir, objects, light, texture_manager, depth + 1)
                    },
                }
            } else {
                Vec3::zero()
            };
            let weight = fx_sub(fx_sub(FX_ONE, reflectivity), transparency);
            phong.scale(weight).add(&reflect_color.scale(reflectivity)).add(
                &refract_color.scale(transparency),
            )
        },
    }
}

/// Every hit the nearest-hit search returns comes from some cube of the
/// scene, carries that cube's material, and lies in front of the origin.
#[verifier::rlimit(100)]
pub proof fn lemma_nearest_from_scene(objects: Seq<Cube>, o: Vec3i, d: Vec3i)
    ensures
        match nearest_s(objects, o, d) {
            Some(h) => exists|i: int|
                0 <= i < objects.len() && cube_intersect_s(#[trigger] objects[i], o, d)
                    == Some(h) && h.material == objects[i].material && h.distance > 0,
            None => true,
        },
    decreases objects.len(),
{
    if objects.len() == 0 {
    } else {
        lemma_nearest_from_scene(objects.drop_last(), o, d);
        let prefix = objects.drop_last();
        assert(forall|i: int| 0 <= i < prefix.len() ==> prefix[i] == objects[i]);
        match nearest_s(objects, o, d) {
            Some(h) => {
                match cube_intersect_s(objects.last(), o, d) {
                    Some(nh) => {
                        lemma_cube_hit_shape(objects.last(), o, d);
                        if h == nh {
                            assert(cube_intersect_s(objects[objects.len() - 1], o, d)
                                == Some(h));
                        }
                    },
                    None => {},
                }
            },
            None => {},
        }
    }
}

/// In a well-formed scene the nearest hit's material resolves its
/// texture references, and the hit lies in front of the origin.
pub proof fn lemma_nearest_mat_wf(objects: Seq<Cube>, o: Vec3i, d: Vec3i, tm: TextureManager)
    requires
        scene_wf(objects, tm),
    ensures
        match nearest_s(objects, o, d) {
            Some(h) => mat_wf(h.material, tm) && h.distance > 0,
            None => true,
        },
{
    lemma_nearest_from_scene(objects, o, d);
    match nearest_s(objects, o, d) {
        Some(h) => {
            let i = choose|i: int|
                0 <= i < objects.len() && cube_intersect_s(#[trigger] objects[i], o, d)
                    == Some(h) && h.material == objects[i].material && h.distance > 0;
            assert(mat_wf(objects[i].material, tm));
        },
        None => {},
    }
}

/// A cube hit carries the cube's material and a positive distance.
pub proof fn lemma_cube_hit_shape(c: Cube, o: Vec3i, d: Vec3i)
    ensures
        match cube_intersect_s(c, o, d) {
            Some(h) => h.material == c.material && h.distance > 0,
            None => true,
        },
{
    reveal(cube_intersect_s);
}

/// Half of the vertical field of view (pi/6, for a fov of pi/3).
pub const HALF_FOV: i64 = 34315;

/// The color of one pixel: screen coordinates to a camera-space ray
/// scaled by aspect ratio and perspective, rotated into world space,
/// then traced from the eye at depth zero.
pub open spec fn render_pixel_s(
    x: int,
    y: int,
    width: int,
    height: int,
    objects: Seq<Cube>,
    camera: Camera,
    light: Light,
    tm: TextureManager,
) -> Vec3i {
    let wf = fx_of_int_s(width);
    let hf = fx_of_int_s(height);
    let aspect = fx_div_s(wf, hf);
    let ps = fx_div_s(sin_s(HALF_FOV as int), cos_s(HALF_FOV as int));
    let sx0 = fx_sub_s(fx_div_s(fx_of_int_s(2 * x), wf), FX_ONE as int);
    let sy0 = fx_add_s(fx_neg_s(fx_div_s(fx_of_int_s(2 * y), hf)), FX_ONE as int);
    let sx = fx_mul_s(fx_mul_s(sx0, aspect), ps);
    let sy = fx_mul_s(sy0, ps);
    let rd = v_normalize_s(Vec3i { x: sx, y: sy, z: -(FX_ONE as int) });
    let rotated = basis_change_s(camera, rd);
    cast_ray_s(objects, camera.eye@, rotated, light, tm, 0)
}

/// Render one frame: one ray per pixel, rows top to bottom, each row
/// left to right; the result holds pixel (x, y) at index y * width + x.
#[verifier::loop_isolation(false)]
#[verifier::rlimit(100)]
pub fn render(
    width: u32,
    height: u32,
    objects: &Vec<Cube>,
    camera: &Camera,
    light: &Light,
    texture_manager: &TextureManager,
) -> (r: Vec<Vec3>)
    requires
        scene_wf(objects@, *texture_manager),
        width <= 8192,
        height <= 8192,
    ensures
        r@.len() == (width as int) * (height as int),
        forall|j: int|
            0 <= j < r@.len() ==> (#[trigger] r@[j])@ == render_pixel_s(
                j % (width as int),
                j / (width as int),
                width as int,
                height as int,
                objects@,
                *camera,
                *light,
                *texture_manager,
            ),
{
    let wf = fx_of_int(width as i64);
    let hf = fx_of_int(height as i64);
    let aspect = fx_div(wf, hf);
    let ps = fx_div(sin_fx(HALF_FOV), cos_fx(HALF_FOV));
    let mut framebuffer: Vec<Vec3> = Vec::new();
    let mut y: u32 = 0;
    while y < height
        invariant
            0 <= y <= height,
            framebuffer@.len() == (y as int) * (width as int),
            forall|j: int|
                0 <= j < framebuffer@.len() ==> (#[trigger] framebuffer@[j])@
                    == render_pixel_s(
                    j % (width as int),
                    j / (width as int),
                    width as int,
                    height as int,
                    objects@,
                    *camera,
                    *light,
                    *texture_manager,
                ),
        decreases height - y,
    {
        let mut x: u32 = 0;
        while x < width
            invariant
                0 <= x <= width,
                y < height,
                framebuffer@.len() == (y as int) * (width as int) + (x as int),
                forall|j: int|
                    0 <= j < framebuffer@.len() ==> (#[trigger] framebuffer@[j])@
                        == render_pixel_s(
                        j % (width as int),
                        j / (width as int),
                        width as int,
                        height as int,
                        objects@,
                        *camera,
                        *light,
                        *texture_manager,
                    ),
            decreases width - x,
        {
            let screen_x = fx_sub(fx_div(fx_of_int(2 * (x as i64)), wf), FX_ONE);
            let screen_y = fx_add(fx_neg(fx_div(fx_of_int(2 * (y as i64)), hf)), FX_ONE);
            let sx = fx_mul(fx_mul(screen_x, aspect), ps);
            let sy = fx_mul(screen_y, ps);
            let rd = Vec3::new(sx, sy, -FX_ONE).normalized();
            let rotated = camera.basis_change(&rd);
            let color = cast_ray(&camera.eye, &rotated, objects, light, texture_manager, 0);
            proof {
                vstd::arithmetic::div_mod::lemma_fundamental_div_mod_converse(
                    (y as int) * (width as int) + (x as int),
                    width as int,
                    y as int,
                    x as int,
                );
            }
            framebuffer.push(color);
            x = x + 1;
        }
        proof {
            assert(((y as int) + 1) * (width as int) == (y as int) * (width as int)
                + (width as int)) by (nonlinear_arith);
        }
        y = y + 1;
    }
    proof {
        assert((height as int) * (width as int) == (width as int) * (height as int))
            by (nonlinear_arith);
    }
    framebuffer
}

/// A scene with no primitives shades every ray, at every depth, with
/// the environment color.
pub proof fn lemma_cast_ray_empty_scene(
    o: Vec3i,
    d: Vec3i,
    light: Light,
    tm: TextureManager,
    depth: int,
)
    ensures
        cast_ray_s(Seq::<Cube>::empty(), o, d, light, tm, depth) == skybox_s(d, tm),
{
    if depth > 3 {
    } else {
        assert(nearest_s(Seq::<Cube>::empty(), o, d) is None);
    }
}

/// Above the depth cap the tracer recurses no further: it returns the
/// environment color outright.
pub proof fn lemma_cast_ray_depth_cap(
    objects: Seq<Cube>,
    o: Vec3i,
    d: Vec3i,
    light: Light,
    tm: TextureManager,
    depth: int,
)
    requires
        depth > 3,
    ensures
        cast_ray_s(objects, o, d, light, tm, depth) == skybox_s(d, tm),
{
}

/// With no occluders the shadow factor is exactly zero.
pub proof fn lemma_shadow_no_occluders(h: HitG, light: Light)
    ensures
        cast_shadow_s(Seq::<Cube>::empty(), h, light) == 0,
{
}

/// Adding an occluder to a scene never decreases the shadow factor.
pub proof fn lemma_shadow_monotone(objects: Seq<Cube>, extra: Cube, h: HitG, light: Light)
    ensures
        cast_shadow_s(objects, h, light) <= cast_shadow_s(objects.push(extra), h, light),
{
    if cast_shadow_s(objects, h, light) == FX_ONE {
        let i = choose|i: int| 0 <= i < objects.len() && blocks_s(#[trigger] objects[i], h, light);
        assert(objects.push(extra)[i] == objects[i]);
        assert(blocks_s(objects.push(extra)[i], h, light));
    }
}

/// An occluder that blocks the light pins the shadow factor at one,
/// wherever it stands in the scene.
pub proof fn lemma_shadow_blocker(objects: Seq<Cube>, h: HitG, light: Light, i: int)
    requires
        0 <= i < objects.len(),
        blocks_s(objects[i], h, light),
    ensures
        cast_shadow_s(objects, h, light) == FX_ONE,
{
}

/// Refraction reports no direction exactly when the discriminant of
/// Snell's law is negative: total internal reflection.
pub proof fn lemma_refract_none_iff(i: Vec3i, n: Vec3i, refractive_index: int)
    ensures
        refract_s(i, n, refractive_index) is None <==> refract_k_s(i, n, refractive_index)
            < 0,
{
}

/// When the nearest-hit search misses, every primitive of the scene
/// misses; when it hits, no primitive's hit is closer.
#[verifier::rlimit(100)]
pub proof fn lemma_nearest_closest(objects: Seq<Cube>, o: Vec3i, d: Vec3i)
    ensures
        match nearest_s(objects, o, d) {
            Some(h) => forall|j: int|
                0 <= j < objects.len() ==> match cube_intersect_s(
                    #[trigger] objects[j],
                    o,
                    d,
                ) {
                    Some(g) => h.distance <= g.distance,
                    None => true,
                },
            None => forall|j: int|
                0 <= j < objects.len() ==> cube_intersect_s(#[trigger] objects[j], o, d)
                    is None,
        },
    decreases objects.len(),
{
    if objects.len() == 0 {
    } else {
        lemma_nearest_closest(objects.drop_last(), o, d);
        let prefix = objects.drop_last();
        assert(forall|j: int| 0 <= j < prefix.len() ==> prefix[j] == objects[j]);
        assert(objects.last() == objects[objects.len() - 1]);
    }
}

/// The tie-break of the nearest-hit search: the returned hit comes from
/// the earliest primitive attaining the minimal distance, so on exact
/// ties the first-encountered primitive wins.
#[verifier::rlimit(100)]
pub proof fn lemma_nearest_first_of_ties(objects: Seq<Cube>, o: Vec3i, d: Vec3i)
    ensures
        match nearest_s(objects, o, d) {
            Some(h) => exists|i: int|
                0 <= i < objects.len() && cube_intersect_s(#[trigger] objects[i], o, d)
                    == Some(h) && (forall|j: int|
                    0 <= j < i ==> match cube_intersect_s(#[trigger] objects[j], o, d) {
                        Some(g) => g.distance > h.distance,
                        None => true,
                    }),
            None => true,
        },
    decreases objects.len(),
{
    if objects.len() == 0 {
    } else {
        let prefix = objects.drop_last();
        lemma_nearest_first_of_ties(prefix, o, d);
        lemma_nearest_closest(prefix, o, d);
        assert(forall|j: int| 0 <= j < prefix.len() ==> prefix[j] == objects[j]);
        assert(objects.last() == objects[objects.len() - 1]);
        match nearest_s(objects, o, d) {
            Some(h) => {
                match cube_intersect_s(objects.last(), o, d) {
                    Some(nh) => {
                        match nearest_s(prefix, o, d) {
                            Some(ph) => {
                                if nh.distance < ph.distance {
                                    // The last primitive wins strictly: every
                                    // earlier hit is at least as far as the
                                    // prefix minimum, which is farther.
                                    assert(cube_intersect_s(
                                        objects[objects.len() - 1],
                                        o,
                                        d,
                                    ) == Some(h));
                                } else {
                                    let i = choose|i: int|
                                        0 <= i < prefix.len() && cube_intersect_s(
                                            #[trigger] prefix[i],
                                            o,
                                            d,
                                        ) == Some(ph) && (forall|j: int|
                                            0 <= j < i ==> match cube_intersect_s(
                                                #[trigger] prefix[j],
                                                o,
                                                d,
                                            ) {
                                                Some(g) => g.distance > ph.distance,
                                                None => true,
                                            });
                                    assert(cube_intersect_s(objects[i], o, d) == Some(h));
                                }
                            },
                            None => {
                                assert(cube_intersect_s(objects[objects.len() - 1], o, d)
                                    == Some(h));
                            },
                        }
                    },
                    None => {
                        let ph = nearest_s(prefix, o, d)->Some_0;
                        let i = choose|i: int|
                            0 <= i < prefix.len() && cube_intersect_s(
                                #[trigger] prefix[i],
                                o,
                                d,
                            ) == Some(ph) && (forall|j: int|
                                0 <= j < i ==> match cube_intersect_s(
                                    #[trigger] prefix[j],
                                    o,
                                    d,
                                ) {
                                    Some(g) => g.distance > ph.distance,
                                    None => true,
                                });
                        assert(cube_intersect_s(objects[i], o, d) == Some(h));
                    },
                }
            },
            None => {},
        }
    }
}

} // verus!
