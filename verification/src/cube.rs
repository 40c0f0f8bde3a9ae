//! Ray/cube intersection (axis-aligned slab test) and face UV mapping.
//!
//! The slab bounds divide by the direction components with the saturating
//! fixed-point quotient, whose division by zero yields the saturation
//! bound with the numerator's sign -- the fixed-point counterpart of the
//! infinities that a floating-point slab test produces for axis-parallel
//! rays.  Face selection uses the x > y > z priority throughout, and face
//! UVs clamp into [0, 1] to absorb rounding spill at the edges.
use vstd::prelude::*;
use crate::fixed::{
    FX_HALF, FX_ONE, fx_abs, fx_abs_s, fx_add, fx_add_s, fx_clamp, fx_clamp_s, fx_div,
    fx_div_s, fx_max, fx_max_s, fx_min, fx_min_s, fx_mul, fx_mul_s, fx_sub, fx_sub_s,
};
use crate::intersect::{HitG, Intersect, opt_hit_view};
use crate::material::Material;
use crate::vec3::{Vec3, Vec3i, v_add_s, v_scale_s, v_sub_s};

verus! {

#[derive(Clone, Copy)]
pub struct Cube {
    pub center: Vec3,
    pub size: i64,
    pub material: Material,
}

/// Unit-length axis value carrying the sign of `v`; zero counts as
/// positive, as the sign of a nonnegative float does.
pub open spec fn sign_unit_s(v: int) -> int {
    if v >= 0 {
        FX_ONE as int
    } else {
        -(FX_ONE as int)
    }
}

/// Face UV: project the two local axes other than the dominant normal
/// axis onto [0, 1], with the x > y > z face priority.
pub open spec fn cube_uv_s(c: Cube, point: Vec3i, normal: Vec3i) -> (int, int) {
    let half = fx_mul_s(c.size as int, FX_HALF as int);
    let lp = v_sub_s(point, c.center@);
    let ax = fx_abs_s(normal.x);
    let ay = fx_abs_s(normal.y);
    let az = fx_abs_s(normal.z);
    let uv = if ax > ay && ax > az {
        (fx_div_s(fx_add_s(lp.z, half), c.size as int), fx_div_s(fx_add_s(lp.y, half), c.size as int))
    } else if ay > az {
        (fx_div_s(fx_add_s(lp.x, half), c.size as int), fx_div_s(fx_add_s(lp.z, half), c.size as int))
    } else {
        (fx_div_s(fx_add_s(lp.x, half), c.size as int), fx_div_s(fx_add_s(lp.y, half), c.size as int))
    };
    (fx_clamp_s(uv.0, 0, FX_ONE as int), fx_clamp_s(uv.1, 0, FX_ONE as int))
}

/// Axis-aligned slab test.  A hit needs `enter < exit` and `exit > 0`;
/// the chosen distance is the entry when it is in front of the origin,
/// else the exit (the origin is inside the cube).  The face normal takes
/// the dominant local axis with the x > y > z priority.
#[verifier::opaque]
pub open spec fn cube_intersect_s(c: Cube, o: Vec3i, d: Vec3i) -> Option<HitG> {
    let half = fx_mul_s(c.size as int, FX_HALF as int);
    let minv = v_sub_s(c.center@, Vec3i { x: half, y: half, z: half });
    let maxv = v_add_s(c.center@, Vec3i { x: half, y: half, z: half });
    let tx1 = fx_div_s(fx_sub_s(minv.x, o.x), d.x);
    let tx2 = fx_div_s(fx_sub_s(maxv.x, o.x), d.x);
    let ty1 = fx_div_s(fx_sub_s(minv.y, o.y), d.y);
    let ty2 = fx_div_s(fx_sub_s(maxv.y, o.y), d.y);
    let tz1 = fx_div_s(fx_sub_s(minv.z, o.z), d.z);
    let tz2 = fx_div_s(fx_sub_s(maxv.z, o.z), d.z);
    let txmin = fx_min_s(tx1, tx2);
    let txmax = fx_max_s(tx1, tx2);
    let tymin = fx_min_s(ty1, ty2);
    let tymax = fx_max_s(ty1, ty2);
    let tzmin = fx_min_s(tz1, tz2);
    let tzmax = fx_max_s(tz1, tz2);
    let t_enter = fx_max_s(fx_max_s(txmin, tymin), tzmin);
    let t_exit = fx_min_s(fx_min_s(txmax, tymax), tzmax);
    if t_enter < t_exit && t_exit > 0 {
        let t = if t_enter > 0 {
            t_enter
        } else {
            t_exit
        };
        let point = v_add_s(o, v_scale_s(d, t));
        let lp = v_sub_s(point, c.center@);
        let alx = fx_abs_s(lp.x);
        let aly = fx_abs_s(lp.y);
        let alz = fx_abs_s(lp.z);
        let normal = if alx > aly && alx > alz {
            Vec3i { x: sign_unit_s(lp.x), y: 0, z: 0 }
        } else if aly > alz {
            Vec3i { x: 0, y: sign_unit_s(lp.y), z: 0 }
        } else {
            Vec3i { x: 0, y: 0, z: sign_unit_s(lp.z) }
        };
        let uv = cube_uv_s(c, point, normal);
        Some(
            HitG {
                point,
                normal,
                distance: t,
                material: c.material,
                u: uv.0,
                v: uv.1,
            },
        )
    } else {
        None
    }
}

fn sign_unit(v: i64) -> (r: i64)
    ensures
        r as int == sign_unit_s(v as int),
{
    if v >= 0 {
        FX_ONE
    } else {
        -FX_ONE
    }
}

impl Cube {
    /// UV coordinates of a surface point (see `cube_uv_s`).
    pub fn get_uv(&self, point: &Vec3, normal: &Vec3) -> (r: (i64, i64))
        ensures
            r.0 as int == cube_uv_s(*self, point@, normal@).0,
            r.1 as int == cube_uv_s(*self, point@, normal@).1,
    {
        let half = fx_mul(self.size, FX_HALF);
        let lp = point.sub(&self.center);
        let ax = fx_abs(normal.x);
        let ay = fx_abs(normal.y);
        let az = fx_abs(normal.z);
        let (u0, v0) = if ax > ay && ax > az {
            (fx_div(fx_add(lp.z, half), self.size), fx_div(fx_add(lp.y, half), self.size))
        } else if ay > az {
            (fx_div(fx_add(lp.x, half), self.size), fx_div(fx_add(lp.z, half), self.size))
        } else {
            (fx_div(fx_add(lp.x, half), self.size), fx_div(fx_add(lp.y, half), self.size))
        };
        (fx_clamp(u0, 0, FX_ONE), fx_clamp(v0, 0, FX_ONE))
    }

    /// The nearest forward hit of the ray against this cube, or `None`.
    pub fn ray_intersect(&self, ray_origin: &Vec3, ray_direction: &Vec3) -> (r: Option<
        Intersect,
    >)
        ensures
            opt_hit_view(r) == cube_intersect_s(*self, ray_origin@, ray_direction@),
    {
        proof {
            reveal(cube_intersect_s);
        }
        let half = fx_mul(self.size, FX_HALF);
        let half_v = Vec3::new(half, half, half);
        let minv = self.center.sub(&half_v);
        let maxv = self.center.add(&half_v);
        let tx1 = fx_div(fx_sub(minv.x, ray_origin.x), ray_direction.x);
        let tx2 = fx_div(fx_sub(maxv.x, ray_origin.x), ray_direction.x);
        let ty1 = fx_div(fx_sub(minv.y, ray_origin.y), ray_direction.y);
        let ty2 = fx_div(fx_sub(maxv.y, ray_origin.y), ray_direction.y);
        let tz1 = fx_div(fx_sub(minv.z, ray_origin.z), ray_direction.z);
        let tz2 = fx_div(fx_sub(maxv.z, ray_origin.z), ray_direction.z);
        let txmin = fx_min(tx1, tx2);
        let txmax = fx_max(tx1, tx2);
        let tymin = fx_min(ty1, ty2);
        let tymax = fx_max(ty1, ty2);
        let tzmin = fx_min(tz1, tz2);
        let tzmax = fx_max(tz1, tz2);
        let t_enter = fx_max(fx_max(txmin, tymin), tzmin);
        let t_exit = fx_min(fx_min(txmax, tymax), tzmax);
        if t_enter < t_exit && t_exit > 0 {
            let t = if t_enter > 0 {
                t_enter
            } else {
                t_exit
            };
            let point = ray_origin.add(&ray_direction.scale(t));
            let lp = point.sub(&self.center);
            let alx = fx_abs(lp.x);
            let aly = fx_abs(lp.y);
            let alz = fx_abs(lp.z);
            let normal = if alx > aly && alx > alz {
                Vec3::new(sign_unit(lp.x), 0, 0)
            } else if aly > alz {
                Vec3::new(0, sign_unit(lp.y), 0)
            } else {
                Vec3::new(0, 0, sign_unit(lp.z))
            };
            let uv = self.get_uv(&point, &normal);
            Some(Intersect::new(point, normal, t, self.material, uv.0, uv.1))
        } else {
            None
        }
    }
}

} // verus!
