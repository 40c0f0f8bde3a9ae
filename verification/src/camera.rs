//! The orbiting camera: eye, target, and an orthonormal basis derived
//! from them, rebuilt after every mutation.
use vstd::prelude::*;
use crate::fixed::{
    fx_add, fx_add_s, fx_clamp, fx_clamp_s, fx_div, fx_div_s, fx_max, fx_max_s, fx_mul,
    fx_mul_s, fx_sub, fx_sub_s,
};
use crate::trig::{asin_fx, asin_s, atan2_fx, atan2_s, cos_fx, cos_s, sin_fx, sin_s};
use crate::vec3::{
    Vec3, Vec3i, v_add_s, v_cross_s, v_length_s, v_normalize_s, v_scale_s, v_sub_s,
};

verus! {

/// Pitch bound (about 1.5608 radians), keeping orbits away from the
/// poles so the up vector cannot invert.
pub const MAX_PITCH: i64 = 102288;
/// Closest the eye may come to the target when zooming (0.1 units).
pub const MIN_ZOOM_DIST: i64 = 6554;

pub struct Camera {
    pub eye: Vec3,
    pub target: Vec3,
    pub world_up: Vec3,
    pub forward: Vec3,
    pub right: Vec3,
    pub up: Vec3,
}

pub open spec fn cam_forward_s(eye: Vec3i, target: Vec3i) -> Vec3i {
    v_normalize_s(v_sub_s(target, eye))
}

pub open spec fn cam_right_s(forward: Vec3i, world_up: Vec3i) -> Vec3i {
    v_normalize_s(v_cross_s(forward, world_up))
}

pub open spec fn cam_up_s(right: Vec3i, forward: Vec3i) -> Vec3i {
    v_cross_s(right, forward)
}

/// The stored basis is exactly the one derived from eye, target and
/// world up; constructors establish it and every mutation rebuilds it.
pub open spec fn camera_wf(c: Camera) -> bool {
    &&& c.forward@ == cam_forward_s(c.eye@, c.target@)
    &&& c.right@ == cam_right_s(c.forward@, c.world_up@)
    &&& c.up@ == cam_up_s(c.right@, c.forward@)
}

/// A camera-space direction (forward along -z) in world space.
pub open spec fn basis_change_s(c: Camera, l: Vec3i) -> Vec3i {
    v_sub_s(
        v_add_s(v_scale_s(c.right@, l.x), v_scale_s(c.up@, l.y)),
        v_scale_s(c.forward@, l.z),
    )
}

/// Where an orbit step puts the eye: the offset from the target in
/// spherical coordinates, azimuth shifted, pitch shifted and clamped,
/// and the same radius reapplied.
pub open spec fn orbit_eye_s(c: Camera, d_az: int, d_pitch: int) -> Vec3i {
    let off = v_sub_s(c.eye@, c.target@);
    let radius = v_length_s(off);
    let az = atan2_s(off.x, off.z);
    let pitch = asin_s(fx_div_s(off.y, radius));
    let naz = fx_add_s(az, d_az);
    let npitch = fx_clamp_s(fx_add_s(pitch, d_pitch), -(MAX_PITCH as int), MAX_PITCH as int);
    let cp = cos_s(npitch);
    v_add_s(
        c.target@,
        Vec3i {
            x: fx_mul_s(radius, fx_mul_s(cp, sin_s(naz))),
            y: fx_mul_s(radius, sin_s(npitch)),
            z: fx_mul_s(radius, fx_mul_s(cp, cos_s(naz))),
        },
    )
}

/// Where a zoom step puts the eye: the distance to the target shrinks
/// by `delta` but never below `MIN_ZOOM_DIST`, along the current
/// forward direction.
pub open spec fn zoom_eye_s(c: Camera, delta: int) -> Vec3i {
    let dist = v_length_s(v_sub_s(c.eye@, c.target@));
    let ndist = fx_max_s(fx_sub_s(dist, delta), MIN_ZOOM_DIST as int);
    v_sub_s(c.target@, v_scale_s(c.forward@, ndist))
}

impl Camera {
    pub fn new(eye: Vec3, target: Vec3, world_up: Vec3) -> (r: Camera)
        ensures
            r.eye == eye,
            r.target == target,
            r.world_up == world_up,
            camera_wf(r),
    {
        let forward = target.sub(&eye).normalized();
        let right = forward.cross(&world_up).normalized();
        let up = right.cross(&forward);
        Camera { eye, target, world_up, forward, right, up }
    }

    fn update_basis(&mut self)
        ensures
            final(self).eye == old(self).eye,
            final(self).target == old(self).target,
            final(self).world_up == old(self).world_up,
            camera_wf(*final(self)),
    {
        self.forward = self.target.sub(&self.eye).normalized();
        self.right = self.forward.cross(&self.world_up).normalized();
        self.up = self.right.cross(&self.forward);
    }

    /// A camera-space ray direction in world space (see `basis_change_s`).
    pub fn basis_change(&self, local: &Vec3) -> (r: Vec3)
        ensures
            r@ == basis_change_s(*self, local@),
    {
        self.right.scale(local.x).add(&self.up.scale(local.y)).sub(
            &self.forward.scale(local.z),
        )
    }

    /// Rotate the eye around the target (see `orbit_eye_s`), then rebuild
    /// the basis.
    pub fn orbit(&mut self, d_az: i64, d_pitch: i64)
        ensures
            final(self).target == old(self).target,
            final(self).world_up == old(self).world_up,
            final(self).eye@ == orbit_eye_s(*old(self), d_az as int, d_pitch as int),
            camera_wf(*final(self)),
    {
        let off = self.eye.sub(&self.target);
        let radius = off.length();
        let az = atan2_fx(off.x, off.z);
        let pitch = asin_fx(fx_div(off.y, radius));
        let naz = fx_add(az, d_az);
        let npitch = fx_clamp(fx_add(pitch, d_pitch), -MAX_PITCH, MAX_PITCH);
        let cp = cos_fx(npitch);
        let offset = Vec3::new(
            fx_mul(radius, fx_mul(cp, sin_fx(naz))),
            fx_mul(radius, sin_fx(npitch)),
            fx_mul(radius, fx_mul(cp, cos_fx(naz))),
        );
        self.eye = self.target.add(&offset);
        self.update_basis();
    }

    /// Move the eye along the view direction (see `zoom_eye_s`), then
    /// rebuild the basis.
    pub fn zoom(&mut self, delta: i64)
        ensures
            final(self).target == old(self).target,
            final(self).world_up == old(self).world_up,
            final(self).eye@ == zoom_eye_s(*old(self), delta as int),
            camera_wf(*final(self)),
    {
        let dist = self.eye.sub(&self.target).length();
        let ndist = fx_max(fx_sub(dist, delta), MIN_ZOOM_DIST);
        self.eye = self.target.sub(&self.forward.scale(ndist));
        self.update_basis();
    }
}

} // verus!
