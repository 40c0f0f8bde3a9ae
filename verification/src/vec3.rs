//! Three-dimensional vectors over fixed-point scalars.
//!
//! `Vec3` is the executable vector; its view is `Vec3i`, the same point
//! with unbounded integer coordinates, and every operation is specified
//! exactly by a spec-level mirror over `Vec3i`.
use vstd::prelude::*;
use crate::fixed::{
    fx_add, fx_add_s, fx_div, fx_div_s, fx_mul, fx_mul_s, fx_neg, fx_neg_s, fx_sqrt,
    fx_sqrt_s, fx_sub, fx_sub_s,
};

verus! {

/// Executable vector of fixed-point coordinates.
#[derive(Clone, Copy)]
pub struct Vec3 {
    pub x: i64,
    pub y: i64,
    pub z: i64,
}

/// Mathematical model of a vector: unbounded integer raw coordinates.
pub ghost struct Vec3i {
    pub x: int,
    pub y: int,
    pub z: int,
}

impl View for Vec3 {
    type V = Vec3i;

    open spec fn view(&self) -> Vec3i {
        Vec3i { x: self.x as int, y: self.y as int, z: self.z as int }
    }
}

pub open spec fn v_zero_s() -> Vec3i {
    Vec3i { x: 0, y: 0, z: 0 }
}

pub open spec fn v_add_s(a: Vec3i, b: Vec3i) -> Vec3i {
    Vec3i { x: fx_add_s(a.x, b.x), y: fx_add_s(a.y, b.y), z: fx_add_s(a.z, b.z) }
}

pub open spec fn v_sub_s(a: Vec3i, b: Vec3i) -> Vec3i {
    Vec3i { x: fx_sub_s(a.x, b.x), y: fx_sub_s(a.y, b.y), z: fx_sub_s(a.z, b.z) }
}

pub open spec fn v_neg_s(a: Vec3i) -> Vec3i {
    Vec3i { x: fx_neg_s(a.x), y: fx_neg_s(a.y), z: fx_neg_s(a.z) }
}

pub open spec fn v_scale_s(a: Vec3i, s: int) -> Vec3i {
    Vec3i { x: fx_mul_s(a.x, s), y: fx_mul_s(a.y, s), z: fx_mul_s(a.z, s) }
}

pub open spec fn v_dot_s(a: Vec3i, b: Vec3i) -> int {
    fx_add_s(fx_add_s(fx_mul_s(a.x, b.x), fx_mul_s(a.y, b.y)), fx_mul_s(a.z, b.z))
}

pub open spec fn v_cross_s(a: Vec3i, b: Vec3i) -> Vec3i {
    Vec3i {
        x: fx_sub_s(fx_mul_s(a.y, b.z), fx_mul_s(a.z, b.y)),
        y: fx_sub_s(fx_mul_s(a.z, b.x), fx_mul_s(a.x, b.z)),
        z: fx_sub_s(fx_mul_s(a.x, b.y), fx_mul_s(a.y, b.x)),
    }
}

pub open spec fn v_length_s(a: Vec3i) -> int {
    fx_sqrt_s(v_dot_s(a, a))
}

/// Normalization divides by the length; a zero vector stays zero because
/// the fixed-point quotient of zero by zero is zero.
pub open spec fn v_normalize_s(a: Vec3i) -> Vec3i {
    let l = v_length_s(a);
    Vec3i { x: fx_div_s(a.x, l), y: fx_div_s(a.y, l), z: fx_div_s(a.z, l) }
}

impl Vec3 {
    pub fn new(x: i64, y: i64, z: i64) -> (r: Vec3)
        ensures
            r@ == (Vec3i { x: x as int, y: y as int, z: z as int }),
    {
        Vec3 { x, y, z }
    }

    pub fn zero() -> (r: Vec3)
        ensures
            r@ == v_zero_s(),
    {
        Vec3 { x: 0, y: 0, z: 0 }
    }

    pub fn add(&self, o: &Vec3) -> (r: Vec3)
        ensures
            r@ == v_add_s(self@, o@),
    {
        Vec3 { x: fx_add(self.x, o.x), y: fx_add(self.y, o.y), z: fx_add(self.z, o.z) }
    }

    pub fn sub(&self, o: &Vec3) -> (r: Vec3)
        ensures
            r@ == v_sub_s(self@, o@),
    {
        Vec3 { x: fx_sub(self.x, o.x), y: fx_sub(self.y, o.y), z: fx_sub(self.z, o.z) }
    }

    pub fn neg(&self) -> (r: Vec3)
        ensures
            r@ == v_neg_s(self@),
    {
        Vec3 { x: fx_neg(self.x), y: fx_neg(self.y), z: fx_neg(self.z) }
    }

    pub fn scale(&self, s: i64) -> (r: Vec3)
        ensures
            r@ == v_scale_s(self@, s as int),
    {
        Vec3 { x: fx_mul(self.x, s), y: fx_mul(self.y, s), z: fx_mul(self.z, s) }
    }

    pub fn dot(&self, o: &Vec3) -> (r: i64)
        ensures
            r as int == v_dot_s(self@, o@),
    {
        fx_add(fx_add(fx_mul(self.x, o.x), fx_mul(self.y, o.y)), fx_mul(self.z, o.z))
    }

    pub fn cross(&self, o: &Vec3) -> (r: Vec3)
        ensures
            r@ == v_cross_s(self@, o@),
    {
        Vec3 {
            x: fx_sub(fx_mul(self.y, o.z), fx_mul(self.z, o.y)),
            y: fx_sub(fx_mul(self.z, o.x), fx_mul(self.x, o.z)),
            z: fx_sub(fx_mul(self.x, o.y), fx_mul(self.y, o.x)),
        }
    }

    pub fn length(&self) -> (r: i64)
        ensures
            r as int == v_length_s(self@),
    {
        fx_sqrt(self.dot(self))
    }

    pub fn normalized(&self) -> (r: Vec3)
        ensures
            r@ == v_normalize_s(self@),
    {
        let l = self.length();
        Vec3 { x: fx_div(self.x, l), y: fx_div(self.y, l), z: fx_div(self.z, l) }
    }
}

} // verus!
