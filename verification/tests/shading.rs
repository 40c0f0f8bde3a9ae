use raytracer::camera::Camera;
use raytracer::cube::Cube;
use raytracer::engine::{
    cast_ray, cast_shadow, check_scene, offset_origin, reflect, refract, render,
    skybox_color, HALF_FOV, ORIGIN_BIAS,
};
use raytracer::fixed::{
    fx_add, fx_div, fx_mul, fx_neg, fx_of_int, fx_sub, FX_MAX, FX_ONE,
};
use raytracer::trig::{cos_fx, sin_fx};
use raytracer::material::{Light, Material, Rgb, vector3_to_color};
use raytracer::texture::{Texture, TextureManager};
use raytracer::vec3::Vec3;

fn flat_material(diffuse: Vec3) -> Material {
    Material::new(diffuse, 10, [FX_ONE, 0, 0, 0], 0, None, None, Vec3::zero())
}

fn mirror_material() -> Material {
    Material::new(Vec3::zero(), 10, [0, 0, FX_ONE, 0], 0, None, None, Vec3::zero())
}

fn white_light_at(position: Vec3, intensity: i64) -> Light {
    Light::new(position, Rgb { r: 255, g: 255, b: 255 }, intensity)
}

fn no_textures() -> TextureManager {
    TextureManager::new()
}

#[test]
fn cast_ray_empty_scene_returns_the_environment() {
    let tm = no_textures();
    let light = white_light_at(Vec3::new(0, 0, 5 * FX_ONE), FX_ONE);
    let objects: Vec<Cube> = Vec::new();
    let dirs = [
        Vec3::new(0, 0, -FX_ONE),
        Vec3::new(FX_ONE, 0, 0),
        Vec3::new(0, -FX_ONE, 0),
        Vec3::new(30000, 50000, -20000),
    ];
    for dir in dirs.iter() {
        let color = cast_ray(&Vec3::zero(), dir, &objects, &light, &tm, 0);
        let sky = skybox_color(dir, &tm);
        assert_eq!(color.x, sky.x);
        assert_eq!(color.y, sky.y);
        assert_eq!(color.z, sky.z);
    }
}

#[test]
fn cast_ray_beyond_depth_cap_returns_the_environment() {
    let tm = no_textures();
    let light = white_light_at(Vec3::new(0, 0, 5 * FX_ONE), FX_ONE);
    let objects = vec![Cube {
        center: Vec3::zero(),
        size: FX_ONE,
        material: flat_material(Vec3::new(32768, 32768, 32768)),
    }];
    let dir = Vec3::new(0, 0, -FX_ONE);
    let color = cast_ray(&Vec3::new(0, 0, 5 * FX_ONE), &dir, &objects, &light, &tm, 4);
    let sky = skybox_color(&dir, &tm);
    assert_eq!(color.x, sky.x);
    assert_eq!(color.y, sky.y);
    assert_eq!(color.z, sky.z);
}

#[test]
fn facing_mirrors_terminate_with_a_finite_color() {
    // Two fully mirrored cubes face each other; the depth cap stops the
    // bouncing after four levels.
    let tm = no_textures();
    let light = white_light_at(Vec3::new(0, 5 * FX_ONE, 0), FX_ONE);
    let objects = vec![
        Cube { center: Vec3::zero(), size: FX_ONE, material: mirror_material() },
        Cube { center: Vec3::new(0, 0, 4 * FX_ONE), size: FX_ONE, material: mirror_material() },
    ];
    let color = cast_ray(
        &Vec3::new(0, 0, 2 * FX_ONE),
        &Vec3::new(0, 0, -FX_ONE),
        &objects,
        &light,
        &tm,
        0,
    );
    assert!(color.x.abs() <= FX_MAX);
    assert!(color.y.abs() <= FX_MAX);
    assert!(color.z.abs() <= FX_MAX);
}

#[test]
fn exact_diffuse_shading_of_a_lit_face() {
    // Light shines straight down the face normal, no occluder, albedo
    // fully diffuse: each channel is diffuse * intensity exactly.
    let tm = no_textures();
    let light = white_light_at(Vec3::new(0, 0, 5 * FX_ONE), 98304);
    let objects = vec![Cube {
        center: Vec3::zero(),
        size: FX_ONE,
        material: flat_material(Vec3::new(32768, 16384, FX_ONE)),
    }];
    let color = cast_ray(
        &Vec3::new(0, 0, 5 * FX_ONE),
        &Vec3::new(0, 0, -FX_ONE),
        &objects,
        &light,
        &tm,
        0,
    );
    assert_eq!(color.x, 49152);
    assert_eq!(color.y, 24576);
    assert_eq!(color.z, 98304);
}

#[test]
fn shadow_factor_is_zero_without_occluders_and_one_with_one() {
    let light = white_light_at(Vec3::new(0, 0, 5 * FX_ONE), FX_ONE);
    let lit_cube = Cube {
        center: Vec3::zero(),
        size: FX_ONE,
        material: flat_material(Vec3::new(32768, 32768, 32768)),
    };
    let origin = Vec3::new(0, 0, 5 * FX_ONE);
    let dir = Vec3::new(0, 0, -FX_ONE);
    let hit = lit_cube.ray_intersect(&origin, &dir).expect("must hit");

    // Only the lit cube itself: nothing occludes its own front face.
    let alone = vec![lit_cube];
    assert_eq!(cast_shadow(&hit, &light, &alone), 0);

    // An opaque cube strictly between the point and the light blocks it.
    let occluder = Cube {
        center: Vec3::new(0, 0, 2 * FX_ONE),
        size: FX_ONE,
        material: flat_material(Vec3::new(32768, 32768, 32768)),
    };
    let mut with_occluder = alone.clone();
    with_occluder.push(occluder);
    assert_eq!(cast_shadow(&hit, &light, &with_occluder), FX_ONE);

    // An occluder beyond the light leaves the point lit.
    let behind_light = Cube {
        center: Vec3::new(0, 0, 8 * FX_ONE),
        size: FX_ONE,
        material: flat_material(Vec3::new(32768, 32768, 32768)),
    };
    let mut with_far = vec![lit_cube, behind_light];
    assert_eq!(cast_shadow(&hit, &light, &with_far), 0);
    // Adding the blocking occluder to that scene raises the factor.
    with_far.push(occluder);
    assert_eq!(cast_shadow(&hit, &light, &with_far), FX_ONE);
}

#[test]
fn refraction_beyond_the_critical_angle_reports_none() {
    // Exiting a medium of index 1.5 at 45 degrees exceeds the critical
    // angle asin(1/1.5) = 41.8 degrees: total internal reflection.
    let normal = Vec3::new(0, 0, FX_ONE);
    let incident = Vec3::new(46341, 0, 46341);
    assert!(refract(&incident, &normal, 98304).is_none());
}

#[test]
fn refraction_below_the_critical_angle_obeys_snell() {
    // Exiting at 30 degrees: sin of the refracted angle must be
    // 1.5 * sin(30 degrees) = 0.75, and the direction unit length.
    let normal = Vec3::new(0, 0, FX_ONE);
    let incident = Vec3::new(32768, 0, 56756);
    let refracted = refract(&incident, &normal, 98304).expect("no reflection expected");
    let rx = refracted.x as f64 / 65536.0;
    let ry = refracted.y as f64 / 65536.0;
    let rz = refracted.z as f64 / 65536.0;
    let len = (rx * rx + ry * ry + rz * rz).sqrt();
    assert!((len - 1.0).abs() < 0.01, "length was {len}");
    let sin_t = rx / len;
    assert!((sin_t - 0.75).abs() < 0.01, "sin was {sin_t}");
    // Entering the denser medium instead bends toward the normal.
    let entering = Vec3::new(32768, 0, -56756);
    let bent = refract(&entering, &normal, 98304).expect("must refract");
    let bx = bent.x as f64 / 65536.0;
    assert!((bx - 0.5 / 1.5).abs() < 0.01, "entering sin was {bx}");
}

#[test]
fn procedural_sky_bands_are_deterministic() {
    let tm = no_textures();
    // Straight down: the horizon band at t = 0 is pure horizon white.
    let down = skybox_color(&Vec3::new(0, -FX_ONE, 0), &tm);
    assert_eq!((down.x, down.y, down.z), (58982, 58982, FX_ONE));
    // Straight up: the flat upper band is pure sky blue.
    let up = skybox_color(&Vec3::new(0, FX_ONE, 0), &tm);
    assert_eq!((up.x, up.y, up.z), (26214, 39322, FX_ONE));
    // Horizontal: the cloud band, exact mixed value.
    let level = skybox_color(&Vec3::new(0, 0, FX_ONE), &tm);
    assert_eq!((level.x, level.y, level.z), (45875, 52429, FX_ONE));
    // The same direction twice gives the identical color.
    let again = skybox_color(&Vec3::new(0, 0, FX_ONE), &tm);
    assert_eq!((level.x, level.y, level.z), (again.x, again.y, again.z));
}

#[test]
fn skybox_texture_is_sampled_when_present() {
    let pixels = vec![
        Vec3::new(100, 0, 0),
        Vec3::new(0, 100, 0),
        Vec3::new(0, 0, 100),
        Vec3::new(100, 100, 0),
    ];
    let tm = TextureManager {
        textures: vec![Texture { width: 2, height: 2, pixels, normals: Vec::new() }],
        skybox: Some(0),
    };
    // Looking along +z: u = 1/2, v = 1/2, so pixel (1, 1).
    let c = skybox_color(&Vec3::new(0, 0, FX_ONE), &tm);
    assert_eq!((c.x, c.y, c.z), (100, 100, 0));
}

#[test]
fn textured_face_takes_its_color_from_the_texture() {
    let pixels = vec![
        Vec3::new(100, 0, 0),
        Vec3::new(0, 100, 0),
        Vec3::new(0, 0, 100),
        Vec3::new(12345, 23456, 34567),
    ];
    let tm = TextureManager {
        textures: vec![Texture { width: 2, height: 2, pixels, normals: Vec::new() }],
        skybox: None,
    };
    let textured = Material::new(
        Vec3::new(FX_ONE, FX_ONE, FX_ONE),
        10,
        [FX_ONE, 0, 0, 0],
        0,
        Some(0),
        None,
        Vec3::zero(),
    );
    let objects = vec![Cube { center: Vec3::zero(), size: FX_ONE, material: textured }];
    let light = white_light_at(Vec3::new(0, 0, 5 * FX_ONE), FX_ONE);
    // Mid-face hit: UV (1/2, 1/2) lands on pixel (1, 1).
    let color = cast_ray(
        &Vec3::new(0, 0, 5 * FX_ONE),
        &Vec3::new(0, 0, -FX_ONE),
        &objects,
        &light,
        &tm,
        0,
    );
    assert_eq!((color.x, color.y, color.z), (12345, 23456, 34567));
}

#[test]
fn normal_map_pointing_outward_matches_flat_shading() {
    // A tangent-space normal of (0,0,1) leaves the geometric normal in
    // place, so the shaded color equals the unmapped one.
    let pixels = vec![Vec3::zero(); 4];
    let normals = vec![Vec3::new(0, 0, FX_ONE); 4];
    let tm = TextureManager {
        textures: vec![Texture { width: 2, height: 2, pixels, normals }],
        skybox: None,
    };
    let mapped = Material::new(
        Vec3::new(32768, 16384, FX_ONE),
        10,
        [FX_ONE, 0, 0, 0],
        0,
        None,
        Some(0),
        Vec3::zero(),
    );
    let objects = vec![Cube { center: Vec3::zero(), size: FX_ONE, material: mapped }];
    let light = white_light_at(Vec3::new(0, 0, 5 * FX_ONE), 98304);
    let color = cast_ray(
        &Vec3::new(0, 0, 5 * FX_ONE),
        &Vec3::new(0, 0, -FX_ONE),
        &objects,
        &light,
        &tm,
        0,
    );
    assert_eq!((color.x, color.y, color.z), (49152, 24576, 98304));
}

#[test]
fn emissive_material_adds_its_own_light() {
    let tm = no_textures();
    // No light reaches the face (intensity 0), but the emissive term
    // survives the blend.
    let glowing = Material::new(
        Vec3::zero(),
        10,
        [FX_ONE, 0, 0, 0],
        0,
        None,
        None,
        Vec3::new(1000, 2000, 3000),
    );
    let objects = vec![Cube { center: Vec3::zero(), size: FX_ONE, material: glowing }];
    let light = white_light_at(Vec3::new(0, 0, 5 * FX_ONE), 0);
    let color = cast_ray(
        &Vec3::new(0, 0, 5 * FX_ONE),
        &Vec3::new(0, 0, -FX_ONE),
        &objects,
        &light,
        &tm,
        0,
    );
    assert_eq!((color.x, color.y, color.z), (1000, 2000, 3000));
}

#[test]
fn camera_basis_and_zoom() {
    let mut camera = Camera::new(
        Vec3::new(0, 0, 5 * FX_ONE),
        Vec3::zero(),
        Vec3::new(0, FX_ONE, 0),
    );
    assert_eq!((camera.forward.x, camera.forward.y, camera.forward.z), (0, 0, -FX_ONE));
    assert_eq!((camera.right.x, camera.right.y, camera.right.z), (FX_ONE, 0, 0));
    assert_eq!((camera.up.x, camera.up.y, camera.up.z), (0, FX_ONE, 0));
    // The camera-space forward direction maps to the world forward.
    let world = camera.basis_change(&Vec3::new(0, 0, -FX_ONE));
    assert_eq!((world.x, world.y, world.z), (0, 0, -FX_ONE));
    // Zooming in by one unit moves the eye one unit toward the target.
    camera.zoom(FX_ONE);
    assert_eq!(camera.eye.z, 4 * FX_ONE);
    // Zooming far past the target clamps at the minimum distance.
    camera.zoom(100 * FX_ONE);
    assert_eq!(camera.eye.z, 6554);
}

#[test]
fn camera_orbit_turns_a_quarter_circle() {
    let mut camera = Camera::new(
        Vec3::new(0, 0, 5 * FX_ONE),
        Vec3::zero(),
        Vec3::new(0, FX_ONE, 0),
    );
    camera.orbit(102944, 0);
    // A quarter turn carries the eye to the +x axis, radius preserved
    // up to the sine polynomial's rounding.
    assert!((camera.eye.x - 5 * FX_ONE).abs() < 300, "x was {}", camera.eye.x);
    assert_eq!(camera.eye.y, 0);
    assert_eq!(camera.eye.z, 0);
    // Pitching far past vertical clamps short of the pole.
    camera.orbit(0, 3 * FX_ONE);
    assert!(camera.eye.y > 0);
    assert!(camera.eye.y < 5 * FX_ONE);
}

#[test]
fn render_traces_one_ray_per_pixel_in_row_major_order() {
    let tm = no_textures();
    let light = white_light_at(Vec3::new(0, 0, 5 * FX_ONE), FX_ONE);
    let objects: Vec<Cube> = Vec::new();
    let camera = Camera::new(
        Vec3::new(0, 0, 5 * FX_ONE),
        Vec3::zero(),
        Vec3::new(0, FX_ONE, 0),
    );
    let frame = render(2, 2, &objects, &camera, &light, &tm);
    assert_eq!(frame.len(), 4);
    // Rebuild each pixel's ray with the same arithmetic and compare.
    let wf = fx_of_int(2);
    let hf = fx_of_int(2);
    let aspect = fx_div(wf, hf);
    let ps = fx_div(sin_fx(HALF_FOV), cos_fx(HALF_FOV));
    for y in 0..2i64 {
        for x in 0..2i64 {
            let screen_x = fx_sub(fx_div(fx_of_int(2 * x), wf), FX_ONE);
            let screen_y = fx_add(fx_neg(fx_div(fx_of_int(2 * y), hf)), FX_ONE);
            let sx = fx_mul(fx_mul(screen_x, aspect), ps);
            let sy = fx_mul(screen_y, ps);
            let rd = Vec3::new(sx, sy, -FX_ONE).normalized();
            let rotated = camera.basis_change(&rd);
            let expected = cast_ray(&camera.eye, &rotated, &objects, &light, &tm, 0);
            let got = frame[(y * 2 + x) as usize];
            assert_eq!((got.x, got.y, got.z), (expected.x, expected.y, expected.z));
        }
    }
}

#[test]
fn colors_clamp_to_bytes() {
    let c = vector3_to_color(&Vec3::new(-5000, 32768, 3 * FX_ONE));
    assert_eq!(c.r, 0);
    assert_eq!(c.g, 127);
    assert_eq!(c.b, 255);
}

#[test]
fn reflection_about_a_face_normal_is_exact() {
    let normal = Vec3::new(0, 0, FX_ONE);
    let incident = Vec3::new(46341, 0, -46341);
    let r = reflect(&incident, &normal);
    assert_eq!((r.x, r.y, r.z), (46341, 0, 46341));
    // Reflecting straight-on flips the direction.
    let head_on = reflect(&Vec3::new(0, 0, -FX_ONE), &normal);
    assert_eq!((head_on.x, head_on.y, head_on.z), (0, 0, FX_ONE));
}

#[test]
fn exact_specular_highlight_at_normal_incidence() {
    // Light and viewer both sit on the surface normal, so the Phong dot
    // is exactly one and any exponent leaves it one: the pixel carries
    // the full white light color.
    let tm = no_textures();
    let light = white_light_at(Vec3::new(0, 0, 5 * FX_ONE), FX_ONE);
    let shiny = Material::new(
        Vec3::zero(),
        125,
        [0, FX_ONE, 0, 0],
        0,
        None,
        None,
        Vec3::zero(),
    );
    let objects = vec![Cube { center: Vec3::zero(), size: FX_ONE, material: shiny }];
    let color = cast_ray(
        &Vec3::new(0, 0, 5 * FX_ONE),
        &Vec3::new(0, 0, -FX_ONE),
        &objects,
        &light,
        &tm,
        0,
    );
    assert_eq!((color.x, color.y, color.z), (FX_ONE, FX_ONE, FX_ONE));
}

#[test]
fn offset_origin_pushes_off_the_incident_side() {
    let lit_cube = Cube {
        center: Vec3::zero(),
        size: FX_ONE,
        material: flat_material(Vec3::new(32768, 32768, 32768)),
    };
    let hit = lit_cube
        .ray_intersect(&Vec3::new(0, 0, 5 * FX_ONE), &Vec3::new(0, 0, -FX_ONE))
        .expect("must hit");
    // A direction leaving along the normal offsets outward...
    let out = offset_origin(&hit, &Vec3::new(0, 0, FX_ONE));
    assert_eq!(out.z, hit.point.z + ORIGIN_BIAS);
    // ... and one entering the surface offsets inward.
    let inward = offset_origin(&hit, &Vec3::new(0, 0, -FX_ONE));
    assert_eq!(inward.z, hit.point.z - ORIGIN_BIAS);
}

#[test]
fn vector_operations_are_exact_on_the_grid() {
    let a = Vec3::new(FX_ONE, 2 * FX_ONE, 3 * FX_ONE);
    let b = Vec3::new(4 * FX_ONE, 5 * FX_ONE, 6 * FX_ONE);
    assert_eq!(a.dot(&b), 32 * FX_ONE);
    let c = a.cross(&b);
    assert_eq!((c.x, c.y, c.z), (-3 * FX_ONE, 6 * FX_ONE, -3 * FX_ONE));
    let s = a.sub(&b);
    assert_eq!((s.x, s.y, s.z), (-3 * FX_ONE, -3 * FX_ONE, -3 * FX_ONE));
    let n = Vec3::new(3 * FX_ONE, 0, 4 * FX_ONE);
    assert_eq!(n.length(), 5 * FX_ONE);
    let u = n.normalized();
    assert_eq!((u.x, u.y, u.z), (39321, 0, 52428));
    // The zero vector stays zero under normalization.
    let z = Vec3::zero().normalized();
    assert_eq!((z.x, z.y, z.z), (0, 0, 0));
}

#[test]
fn scene_validation_accepts_good_and_rejects_broken_scenes() {
    let pixels = vec![Vec3::zero(); 4];
    let tm = TextureManager {
        textures: vec![Texture { width: 2, height: 2, pixels, normals: Vec::new() }],
        skybox: Some(0),
    };
    let textured = Material::new(
        Vec3::zero(),
        1,
        [FX_ONE, 0, 0, 0],
        0,
        Some(0),
        None,
        Vec3::zero(),
    );
    let objects = vec![Cube { center: Vec3::zero(), size: FX_ONE, material: textured }];
    assert!(check_scene(&objects, &tm));

    // A material naming a texture that does not exist is rejected.
    let dangling = Material::new(
        Vec3::zero(),
        1,
        [FX_ONE, 0, 0, 0],
        0,
        Some(7),
        None,
        Vec3::zero(),
    );
    let broken = vec![Cube { center: Vec3::zero(), size: FX_ONE, material: dangling }];
    assert!(!check_scene(&broken, &tm));

    // A texture whose pixel grid does not match its size is rejected.
    let short_tm = TextureManager {
        textures: vec![Texture {
            width: 2,
            height: 2,
            pixels: vec![Vec3::zero(); 3],
            normals: Vec::new(),
        }],
        skybox: None,
    };
    assert!(!check_scene(&Vec::new(), &short_tm));

    // A skybox reference that does not resolve is rejected.
    let no_sky = TextureManager { textures: Vec::new(), skybox: Some(0) };
    assert!(!check_scene(&Vec::new(), &no_sky));
}
