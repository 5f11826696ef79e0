use raytracer_rs::scene::{build_scene, palette_entry, DirectionalLight, Material, Sphere};

#[test]
fn five_spheres_stand_on_a_line() {
    let scene = build_scene(5, 800, 600);
    let xs: Vec<i64> = scene.spheres().iter().map(|s| s.center[0]).collect();
    assert_eq!(xs, vec![0, -2500, -4000, -5500, -7000]);
    for sphere in scene.spheres() {
        assert_eq!(sphere.center[1], -1000);
        assert_eq!(sphere.center[2], -1000);
        assert_eq!(sphere.radius, 500);
    }
}

#[test]
fn five_spheres_have_the_palette() {
    let scene = build_scene(5, 800, 600);
    let expected = vec![
        Material { specular: [1000, 0, 0, 0], albedo: [1000, 0, 0, 0] },
        Material { specular: [0, 1000, 0, 0], albedo: [0, 1000, 0, 0] },
        Material { specular: [0, 0, 1000, 0], albedo: [0, 0, 1000, 0] },
        Material { specular: [0, 0, 400, 0], albedo: [0, 0, 800, 0] },
        Material { specular: [400, 0, 400, 0], albedo: [600, 0, 600, 0] },
    ];
    assert_eq!(scene.materials(), &expected);
}

#[test]
fn palette_runs_round() {
    let scene = build_scene(12, 4, 4);
    assert_eq!(scene.spheres().len(), 12);
    assert_eq!(scene.materials().len(), 12);
    for i in 0..12u32 {
        assert_eq!(scene.materials()[i as usize], palette_entry(i % 5));
    }
    assert_eq!(scene.materials()[5], scene.materials()[0]);
    assert_eq!(scene.materials()[11], scene.materials()[1]);
    assert_eq!(scene.spheres()[5], Sphere { center: [-8500, -1000, -1000], radius: 500 });
    assert_eq!(scene.spheres()[11], Sphere { center: [-17500, -1000, -1000], radius: 500 });
}

#[test]
fn scene_records_light_and_frame() {
    let scene = build_scene(5, 800, 600);
    assert_eq!(scene.sun(), DirectionalLight { direction: [500, 1000, 0, 500] });
    assert_eq!(scene.width(), 800);
    assert_eq!(scene.height(), 600);
}

#[test]
fn scene_is_the_same_every_time() {
    let first = build_scene(5, 800, 600);
    let second = build_scene(5, 800, 600);
    assert_eq!(first.spheres(), second.spheres());
    assert_eq!(first.materials(), second.materials());
    assert_eq!(first.sun(), second.sun());
    assert_eq!(first.width(), second.width());
    assert_eq!(first.height(), second.height());
}

#[test]
fn empty_and_single_scenes() {
    let none = build_scene(0, 1, 1);
    assert!(none.spheres().is_empty());
    assert!(none.materials().is_empty());
    let one = build_scene(1, 1, 1);
    assert_eq!(one.spheres(), &vec![Sphere { center: [0, -1000, -1000], radius: 500 }]);
    assert_eq!(
        one.materials(),
        &vec![Material { specular: [1000, 0, 0, 0], albedo: [1000, 0, 0, 0] }]
    );
}

#[test]
fn sphere_block_holds_spheres_then_speculars_then_albedos() {
    let block = build_scene(2, 8, 8).sphere_block();
    assert_eq!(
        block,
        vec![
            0, -1000, -1000, 500, -2500, -1000, -1000, 500, // centres and radii
            1000, 0, 0, 0, 0, 1000, 0, 0, // specular colours
            1000, 0, 0, 0, 0, 1000, 0, 0, // albedos
        ]
    );
    let five = build_scene(5, 800, 600).sphere_block();
    assert_eq!(five.len(), 60);
    assert_eq!(five[16..20], [-7000, -1000, -1000, 500]);
    assert_eq!(five[32..40], [0, 0, 400, 0, 400, 0, 400, 0]);
    assert_eq!(five[52..60], [0, 0, 800, 0, 600, 0, 600, 0]);
    assert!(build_scene(0, 1, 1).sphere_block().is_empty());
}
