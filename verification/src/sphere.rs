//! Ray/sphere intersection and spherical UV mapping.
use vstd::prelude::*;
use crate::fixed::{
    FX_HALF, FX_MAX, FX_ONE, FX_TWO, FX_FOUR, fx_add, fx_add_s, fx_div, fx_div_s, fx_mul,
    fx_mul_s, fx_neg, fx_neg_s, fx_sqrt, fx_sqrt_s, fx_sub, fx_sub_s,
};
use crate::intersect::{HitG, Intersect, opt_hit_view};
use crate::material::Material;
use crate::trig::{FX_PI, FX_TWO_PI, asin_fx, asin_s, atan2_fx, atan2_s};
use crate::vec3::{Vec3, Vec3i, v_add_s, v_dot_s, v_normalize_s, v_scale_s, v_sub_s};

verus! {

#[derive(Clone, Copy)]
pub struct Sphere {
    pub center: Vec3,
    pub radius: i64,
    pub material: Material,
}

/// Equirectangular UV of a surface point: longitude from `atan2` over the
/// full turn, latitude from `asin` over the half turn, with v growing
/// downward so that the top pole maps to v = 0.
pub open spec fn sphere_uv_s(s: Sphere, point: Vec3i) -> (int, int) {
    let nx = fx_div_s(fx_sub_s(point.x, s.center@.x), s.radius as int);
    let ny = fx_div_s(fx_sub_s(point.y, s.center@.y), s.radius as int);
    let nz = fx_div_s(fx_sub_s(point.z, s.center@.z), s.radius as int);
    let u = fx_add_s(FX_HALF as int, fx_div_s(atan2_s(nx, nz), FX_TWO_PI as int));
    let v = fx_sub_s(FX_HALF as int, fx_div_s(asin_s(ny), FX_PI as int));
    (u, v)
}

/// Solution of the ray/sphere quadratic: the smaller root must be
/// strictly positive; a nonpositive discriminant or a hit behind the
/// origin is a miss.
pub open spec fn sphere_intersect_s(s: Sphere, o: Vec3i, d: Vec3i) -> Option<HitG> {
    let oc = v_sub_s(o, s.center@);
    let qa = v_dot_s(d, d);
    let qb = fx_mul_s(FX_TWO as int, v_dot_s(oc, d));
    let qc = fx_sub_s(v_dot_s(oc, oc), fx_mul_s(s.radius as int, s.radius as int));
    let disc = fx_sub_s(fx_mul_s(qb, qb), fx_mul_s(fx_mul_s(FX_FOUR as int, qa), qc));
    if disc > 0 {
        let t = fx_div_s(
            fx_sub_s(fx_neg_s(qb), fx_sqrt_s(disc)),
            fx_mul_s(FX_TWO as int, qa),
        );
        if t > 0 {
            let point = v_add_s(o, v_scale_s(d, t));
            let normal = v_normalize_s(v_sub_s(point, s.center@));
            let uv = sphere_uv_s(s, point);
            Some(
                HitG {
                    point,
                    normal,
                    distance: t,
                    material: s.material,
                    u: uv.0,
                    v: uv.1,
                },
            )
        } else {
            None
        }
    } else {
        None
    }
}

/// The poles are stable under the equirectangular mapping: for every
/// sphere, the point directly above the center maps to exactly v = 0
/// and u = 1/2, and the point directly below to exactly v = 1, with no
/// jump across either pole.
pub proof fn lemma_sphere_pole_uv(s: Sphere)
    requires
        0 < s.radius <= FX_MAX,
        -(FX_MAX as int) <= s.center@.y - s.radius,
        s.center@.y + s.radius <= FX_MAX as int,
    ensures
        sphere_uv_s(
            s,
            Vec3i { x: s.center@.x, y: s.center@.y + s.radius, z: s.center@.z },
        ) == (FX_HALF as int, 0int),
        sphere_uv_s(
            s,
            Vec3i { x: s.center@.x, y: s.center@.y - s.radius, z: s.center@.z },
        ).1 == FX_ONE as int,
{
    let r = s.radius as int;
    assert(r * (FX_ONE as int) >= 0) by (nonlinear_arith)
        requires
            0 < r;
    vstd::arithmetic::div_mod::lemma_div_multiples_vanish(FX_ONE as int, r);
    vstd::arithmetic::div_mod::lemma_div_basics(r);
    vstd::arithmetic::div_mod::lemma_div_basics(65536);
    vstd::arithmetic::div_mod::lemma_div_basics(205887);
    vstd::arithmetic::div_mod::lemma_div_basics(411775);
    // 1 * 1 is exactly 1 on the fixed grid: 65536^2 / 65536 = 65536.
    assert(65536 * 65536 + 0 == 4294967296int) by (nonlinear_arith);
    vstd::arithmetic::div_mod::lemma_fundamental_div_mod_converse(4294967296, 65536, 65536, 0);
    // The half angle over pi is exactly one half: the quotient of
    // 102944 * 65536 by 205887 is 32768 with remainder 32768.
    assert(32768 * 205887 + 32768 == 6746537984int) by (nonlinear_arith);
    vstd::arithmetic::div_mod::lemma_fundamental_div_mod_converse(
        6746537984,
        205887,
        32768,
        32768,
    );
}

/// A sphere hit carries the sphere's material and a positive distance:
/// hits behind the origin are rejected, never clamped.
pub proof fn lemma_sphere_hit_shape(s: Sphere, o: Vec3i, d: Vec3i)
    ensures
        match sphere_intersect_s(s, o, d) {
            Some(h) => h.material == s.material && h.distance > 0,
            None => true,
        },
{
}

impl Sphere {
    /// UV coordinates of a point on the surface (see `sphere_uv_s`).
    pub fn get_uv(&self, point: &Vec3) -> (r: (i64, i64))
        ensures
            r.0 as int == sphere_uv_s(*self, point@).0,
            r.1 as int == sphere_uv_s(*self, point@).1,
    {
        let nx = fx_div(fx_sub(point.x, self.center.x), self.radius);
        let ny = fx_div(fx_sub(point.y, self.center.y), self.radius);
        let nz = fx_div(fx_sub(point.z, self.center.z), self.radius);
        let u = fx_add(FX_HALF, fx_div(atan2_fx(nx, nz), FX_TWO_PI));
        let v = fx_sub(FX_HALF, fx_div(asin_fx(ny), FX_PI));
        (u, v)
    }

    /// The nearest forward hit of the ray against this sphere, or `None`.
    pub fn ray_intersect(&self, ray_origin: &Vec3, ray_direction: &Vec3) -> (r: Option<
        Intersect,
    >)
        ensures
            opt_hit_view(r) == sphere_intersect_s(*self, ray_origin@, ray_direction@),
    {
        let oc = ray_origin.sub(&self.center);
        let qa = ray_direction.dot(ray_direction);
        let qb = fx_mul(FX_TWO, oc.dot(ray_direction));
        let qc = fx_sub(oc.dot(&oc), fx_mul(self.radius, self.radius));
        let disc = fx_sub(fx_mul(qb, qb), fx_mul(fx_mul(FX_FOUR, qa), qc));
        if disc > 0 {
            let t = fx_div(fx_sub(fx_neg(qb), fx_sqrt(disc)), fx_mul(FX_TWO, qa));
            if t > 0 {
                let point = ray_origin.add(&ray_direction.scale(t));
                let normal = point.sub(&self.center).normalized();
                let uv = self.get_uv(&point);
                return Some(Intersect::new(point, normal, t, self.material, uv.0, uv.1));
            }
        }
        None
    }
}

} // verus!
