use raytracer::cube::Cube;
use raytracer::fixed::FX_ONE;
use raytracer::material::Material;
use raytracer::sphere::Sphere;
use raytracer::vec3::Vec3;

fn plain_material() -> Material {
    Material::new(
        Vec3::new(32768, 32768, 32768),
        10,
        [FX_ONE, 0, 0, 0],
        0,
        None,
        None,
        Vec3::zero(),
    )
}

#[test]
fn sphere_hit_straight_on() {
    // A ray from (0,0,5) toward (0,0,-1) against the unit sphere at the
    // origin hits at distance 4 with normal (0,0,1).
    let sphere = Sphere {
        center: Vec3::zero(),
        radius: FX_ONE,
        material: plain_material(),
    };
    let origin = Vec3::new(0, 0, 5 * FX_ONE);
    let dir = Vec3::new(0, 0, -FX_ONE);
    let hit = sphere.ray_intersect(&origin, &dir).expect("must hit");
    assert_eq!(hit.distance, 4 * FX_ONE);
    assert_eq!(hit.normal.x, 0);
    assert_eq!(hit.normal.y, 0);
    assert_eq!(hit.normal.z, FX_ONE);
    assert_eq!(hit.point.z, FX_ONE);
}

#[test]
fn cube_hit_straight_on() {
    // A ray from (0,0,5) toward (0,0,-1) against the unit cube at the
    // origin hits at distance 4.5 with normal (0,0,1).
    let cube = Cube { center: Vec3::zero(), size: FX_ONE, material: plain_material() };
    let origin = Vec3::new(0, 0, 5 * FX_ONE);
    let dir = Vec3::new(0, 0, -FX_ONE);
    let hit = cube.ray_intersect(&origin, &dir).expect("must hit");
    assert_eq!(hit.distance, 4 * FX_ONE + FX_ONE / 2);
    assert_eq!(hit.normal.x, 0);
    assert_eq!(hit.normal.y, 0);
    assert_eq!(hit.normal.z, FX_ONE);
    // The hit lands mid-face: both face UVs are one half.
    assert_eq!(hit.u, FX_ONE / 2);
    assert_eq!(hit.v, FX_ONE / 2);
}

#[test]
fn sphere_miss_returns_the_sentinel() {
    let sphere = Sphere {
        center: Vec3::zero(),
        radius: FX_ONE,
        material: plain_material(),
    };
    // Closest approach is 3 units above the sphere.
    let origin = Vec3::new(0, 3 * FX_ONE, 5 * FX_ONE);
    let dir = Vec3::new(0, 0, -FX_ONE);
    assert!(sphere.ray_intersect(&origin, &dir).is_none());
    // A hit behind the origin is rejected, not clamped.
    let behind = sphere.ray_intersect(&Vec3::new(0, 0, 5 * FX_ONE), &Vec3::new(0, 0, FX_ONE));
    assert!(behind.is_none());
}

#[test]
fn cube_miss_returns_the_sentinel() {
    let cube = Cube { center: Vec3::zero(), size: FX_ONE, material: plain_material() };
    let origin = Vec3::new(0, 3 * FX_ONE, 5 * FX_ONE);
    let dir = Vec3::new(0, 0, -FX_ONE);
    assert!(cube.ray_intersect(&origin, &dir).is_none());
    let behind = cube.ray_intersect(&Vec3::new(0, 0, 5 * FX_ONE), &Vec3::new(0, 0, FX_ONE));
    assert!(behind.is_none());
}

#[test]
fn cube_hit_from_inside_uses_the_exit() {
    let cube = Cube { center: Vec3::zero(), size: 2 * FX_ONE, material: plain_material() };
    let hit = cube.ray_intersect(&Vec3::zero(), &Vec3::new(0, 0, -FX_ONE)).expect("must hit");
    assert_eq!(hit.distance, FX_ONE);
    assert_eq!(hit.normal.z, -FX_ONE);
}

#[test]
fn cube_axis_parallel_ray_outside_slab_misses() {
    // The ray runs parallel to the x faces, two units off the cube.
    let cube = Cube { center: Vec3::zero(), size: FX_ONE, material: plain_material() };
    let origin = Vec3::new(2 * FX_ONE, 0, 5 * FX_ONE);
    let dir = Vec3::new(0, 0, -FX_ONE);
    assert!(cube.ray_intersect(&origin, &dir).is_none());
}

#[test]
fn sphere_uv_is_stable_at_the_pole() {
    // Directly above the center v is exactly 0; points leaning toward
    // several longitudes stay next to it, with no jump across the pole.
    let sphere = Sphere {
        center: Vec3::zero(),
        radius: FX_ONE,
        material: plain_material(),
    };
    let (u, v) = sphere.get_uv(&Vec3::new(0, FX_ONE, 0));
    assert_eq!(v, 0);
    assert_eq!(u, FX_ONE / 2);
    let near_pole: [(i64, i64); 4] = [(655, 0), (-655, 0), (0, 655), (0, -655)];
    for &(x, z) in near_pole.iter() {
        let (_, v_near) = sphere.get_uv(&Vec3::new(x, 65533, z));
        assert!(v_near < 2000, "v near pole was {v_near}");
    }
    // The bottom pole maps to v = 1 under the inverted-v convention.
    let (_, v_bottom) = sphere.get_uv(&Vec3::new(0, -FX_ONE, 0));
    assert_eq!(v_bottom, FX_ONE);
}

#[test]
fn sphere_uv_equator_quarters() {
    let sphere = Sphere {
        center: Vec3::zero(),
        radius: FX_ONE,
        material: plain_material(),
    };
    // +z is the zero longitude: u = 1/2 exactly; the equator has v = 1/2.
    let (u0, v0) = sphere.get_uv(&Vec3::new(0, 0, FX_ONE));
    assert_eq!(u0, FX_ONE / 2);
    assert_eq!(v0, FX_ONE / 2);
    // +x is a quarter turn: u close to 3/4.
    let (u1, _) = sphere.get_uv(&Vec3::new(FX_ONE, 0, 0));
    assert!((u1 - 3 * FX_ONE / 4).abs() < 300, "u at +x was {u1}");
}

#[test]
fn cube_face_priority_picks_x_then_y_then_z() {
    let cube = Cube { center: Vec3::zero(), size: FX_ONE, material: plain_material() };
    // Hit the +x face.
    let hit = cube.ray_intersect(&Vec3::new(5 * FX_ONE, 0, 0), &Vec3::new(-FX_ONE, 0, 0))
        .expect("must hit");
    assert_eq!(hit.normal.x, FX_ONE);
    assert_eq!(hit.normal.y, 0);
    assert_eq!(hit.normal.z, 0);
    // On an x face the UVs project the z and y axes.
    let off = cube.ray_intersect(
        &Vec3::new(5 * FX_ONE, FX_ONE / 4, -FX_ONE / 4),
        &Vec3::new(-FX_ONE, 0, 0),
    ).expect("must hit");
    assert_eq!(off.u, FX_ONE / 4);
    assert_eq!(off.v, 3 * FX_ONE / 4);
    // Hit the -y face.
    let hit2 = cube.ray_intersect(&Vec3::new(0, -5 * FX_ONE, 0), &Vec3::new(0, FX_ONE, 0))
        .expect("must hit");
    assert_eq!(hit2.normal.y, -FX_ONE);
}
