//! The result of testing one ray against one primitive.
use vstd::prelude::*;
use crate::material::Material;
use crate::vec3::{Vec3, Vec3i};

verus! {

/// A valid forward hit: point, outward unit normal, parametric distance
/// along the ray (always positive), the material of the surface, and the
/// surface UV coordinates.
#[derive(Clone, Copy)]
pub struct Intersect {
    pub point: Vec3,
    pub normal: Vec3,
    pub distance: i64,
    pub material: Material,
    pub u: i64,
    pub v: i64,
}

/// Mathematical model of a hit.
pub ghost struct HitG {
    pub point: Vec3i,
    pub normal: Vec3i,
    pub distance: int,
    pub material: Material,
    pub u: int,
    pub v: int,
}

impl View for Intersect {
    type V = HitG;

    open spec fn view(&self) -> HitG {
        HitG {
            point: self.point@,
            normal: self.normal@,
            distance: self.distance as int,
            material: self.material,
            u: self.u as int,
            v: self.v as int,
        }
    }
}

impl Intersect {
    pub fn new(point: Vec3, normal: Vec3, distance: i64, material: Material, u: i64, v: i64) -> (r:
        Intersect)
        ensures
            r@ == (HitG {
                point: point@,
                normal: normal@,
                distance: distance as int,
                material,
                u: u as int,
                v: v as int,
            }),
    {
        Intersect { point, normal, distance, material, u, v }
    }
}

/// The model of a possible hit; `None` is the no-hit sentinel.
pub open spec fn opt_hit_view(r: Option<Intersect>) -> Option<HitG> {
    match r {
        Some(i) => Some(i@),
        None => None,
    }
}

} // verus!
