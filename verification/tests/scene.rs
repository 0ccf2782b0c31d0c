use raytracer::geometry::{meets, reflects_totally};
use raytracer::objects::{
    is_positive, Light, LightOptions, Scene, Seen, Sphere, SurfaceOptions, SurfaceType,
};
use raytracer::ppm::RGB;
use raytracer::vector::Vec3;

fn matte(color: RGB) -> SurfaceOptions<f32> {
    SurfaceOptions::new(0.0, 0.0, 1.0, 1.0, SurfaceType::Solid(color))
}

fn ball(x: f32, y: f32, z: f32, r: f32, o: SurfaceOptions<f32>) -> Sphere<f32> {
    Sphere::new(Vec3::new(x, y, z), r, o).unwrap()
}

// The distance at which the ray meets the sphere, worked out from the
// library's decision.
fn distance(s: &Sphere<f32>, root: Vec3<f32>, dir: Vec3<f32>) -> Option<f32> {
    let offset = *s.center() - root;
    let unit = dir.scale(1.0 / (dir * dir).sqrt());
    let along = unit * offset;
    let ahead = unit.scale(along);
    let aside = offset - ahead;
    let radius_sq = *s.radius() * *s.radius();
    if meets(&(offset * offset), &radius_sq, &along, &(aside * aside)) {
        Some((ahead * ahead).sqrt() - (radius_sq - aside * aside).sqrt())
    } else {
        None
    }
}

fn distances(scene: &Scene<f32>, root: Vec3<f32>, dir: Vec3<f32>) -> Vec<Option<f32>> {
    scene.objects().iter().map(|s| distance(s, root, dir)).collect()
}

#[test]
fn sphere_needs_a_radius_above_zero() {
    let o = matte(RGB::new(255, 0, 0));
    let c = Vec3::new(0.0f32, 0.0, 0.0);
    assert!(Sphere::new(c, 0.5, o).is_some());
    assert!(Sphere::new(c, f32::MIN_POSITIVE, o).is_some());
    assert!(Sphere::new(c, 0.0, o).is_none());
    assert!(Sphere::new(c, -0.0, o).is_none());
    assert!(Sphere::new(c, -1.0, o).is_none());
    assert!(Sphere::new(c, f32::NAN, o).is_none());
    assert!(Sphere::new(Vec3::new(0i32, 0, 0), 0, SurfaceOptions::new(0, 0, 0, 0, SurfaceType::Mirror)).is_none());
    assert!(Sphere::new(Vec3::new(0i32, 0, 0), 3, SurfaceOptions::new(0, 0, 0, 0, SurfaceType::Mirror)).is_some());
}

#[test]
fn sphere_hands_back_what_it_was_made_of() {
    let o = SurfaceOptions::new(1.3f32, 1.5, 1.0, 100.0, SurfaceType::Transparent(1.3));
    let s = Sphere::new(Vec3::new(1.0f32, 0.3, 0.5), 0.7, o).unwrap();
    assert_eq!((s.center().x, s.center().y, s.center().z), (1.0, 0.3, 0.5));
    assert_eq!(*s.radius(), 0.7);
    assert_eq!(s.opt().spec_ref, 1.3);
    assert_eq!(s.opt().diff_ref, 1.5);
    assert_eq!(s.opt().amb_ref, 1.0);
    assert_eq!(s.opt().shininess, 100.0);
    assert_eq!(s.opt().surface_type.index_ratio(), Some(&1.3));
    let copy = s;
    assert_eq!(*copy.radius(), *s.radius());
}

#[test]
fn is_positive_compares_with_zero() {
    assert!(is_positive(&0.001f32));
    assert!(!is_positive(&0.0f32));
    assert!(!is_positive(&-2.0f64));
    assert!(is_positive(&7u32));
    assert!(!is_positive(&0u8));
}

#[test]
fn light_and_its_options_keep_their_values() {
    let o = LightOptions::new(70.0f32, 100.0, 5.0);
    assert_eq!((o.spec_ref, o.diff_ref, o.amb_ref), (70.0, 100.0, 5.0));
    let l = Light::new(Vec3::new(-0.6f32, 0.8, 1.3), o);
    assert_eq!((l.center.x, l.center.y, l.center.z), (-0.6, 0.8, 1.3));
    assert_eq!(l.opt.amb_ref, 5.0);
}

#[test]
fn surface_kinds_are_told_apart() {
    let red = RGB::new(255, 0, 0);
    let solid: SurfaceType<f32> = SurfaceType::Solid(red);
    let mirror: SurfaceType<f32> = SurfaceType::Mirror;
    let glass: SurfaceType<f32> = SurfaceType::Transparent(1.5);
    assert_eq!(solid.seen(), Seen::Solid(red));
    assert_eq!(mirror.seen(), Seen::Mirror);
    assert_eq!(glass.seen(), Seen::Transparent);
    assert!(solid.scatters());
    assert!(!mirror.scatters());
    assert!(!glass.scatters());
    assert_eq!(solid.index_ratio(), None);
    assert_eq!(mirror.index_ratio(), None);
    assert_eq!(glass.index_ratio(), Some(&1.5));
}

#[test]
fn scene_keeps_spheres_and_lights_in_the_order_added() {
    let mut scene: Scene<f32> = Scene::new();
    assert!(scene.objects().is_empty());
    assert!(scene.lights().is_empty());
    scene.add_obj(ball(1.0, 0.0, 0.0, 0.5, matte(RGB::new(1, 1, 1))));
    scene.add_light(Light::new(Vec3::new(0.0, 5.0, 0.0), LightOptions::new(1.0, 2.0, 3.0)));
    scene.add_obj(ball(2.0, 0.0, 0.0, 0.25, matte(RGB::new(2, 2, 2))));
    scene.add_light(Light::new(Vec3::new(0.0, 6.0, 0.0), LightOptions::new(4.0, 5.0, 6.0)));
    assert_eq!(scene.objects().len(), 2);
    assert_eq!(*scene.objects()[0].radius(), 0.5);
    assert_eq!(*scene.objects()[1].radius(), 0.25);
    assert_eq!(scene.lights().len(), 2);
    assert_eq!(scene.lights()[0].center.y, 5.0);
    assert_eq!(scene.lights()[1].opt.amb_ref, 6.0);
}

#[test]
fn scene_tells_what_lies_at_a_hit() {
    let mut scene: Scene<f32> = Scene::new();
    let blue = RGB::new(0, 0, 255);
    scene.add_obj(ball(1.0, 0.0, 0.0, 0.5, matte(blue)));
    scene.add_obj(ball(2.0, 0.0, 0.0, 0.5, SurfaceOptions::new(1.0, 1.0, 0.0, 1.0, SurfaceType::Mirror)));
    scene.add_obj(ball(3.0, 0.0, 0.0, 0.5, SurfaceOptions::new(1.0, 1.0, 0.0, 1.0, SurfaceType::Transparent(1.3))));
    assert_eq!(scene.seen(Some(0)), Seen::Solid(blue));
    assert_eq!(scene.seen(Some(1)), Seen::Mirror);
    assert_eq!(scene.seen(Some(2)), Seen::Transparent);
    assert_eq!(scene.seen(Some(3)), Seen::Nothing);
    assert_eq!(scene.seen(None), Seen::Nothing);
}

#[test]
fn empty_scene_meets_nothing() {
    let scene: Scene<f32> = Scene::new();
    assert_eq!(scene.ind_viewing(&vec![]), None);
    assert_eq!(scene.ind_viewing(&vec![Some(1.0)]), None);
}

#[test]
fn nearest_of_the_distances_wins() {
    let mut scene: Scene<f32> = Scene::new();
    for i in 0..4 {
        scene.add_obj(ball(i as f32, 0.0, 0.0, 0.5, matte(RGB::new(1, 1, 1))));
    }
    assert_eq!(scene.ind_viewing(&vec![None, None, None, None]), None);
    assert_eq!(scene.ind_viewing(&vec![Some(7.0), Some(3.0), None, Some(5.0)]), Some(1));
    assert_eq!(scene.ind_viewing(&vec![None, None, Some(2.5), None]), Some(2));
    assert_eq!(scene.ind_viewing(&vec![Some(4.0), Some(3.0), Some(2.0), Some(1.0)]), Some(3));
}

#[test]
fn at_equal_distance_the_first_sphere_wins() {
    let mut scene: Scene<f32> = Scene::new();
    for i in 0..4 {
        scene.add_obj(ball(i as f32, 0.0, 0.0, 0.5, matte(RGB::new(1, 1, 1))));
    }
    assert_eq!(scene.ind_viewing(&vec![Some(3.0), Some(3.0), None, None]), Some(0));
    assert_eq!(scene.ind_viewing(&vec![Some(9.0), Some(3.0), Some(3.0), Some(3.0)]), Some(1));
    assert_eq!(scene.ind_viewing(&vec![None, Some(0.0), Some(-0.0), None]), Some(1));
}

#[test]
fn distances_without_a_sphere_are_left_out() {
    let mut scene: Scene<f32> = Scene::new();
    scene.add_obj(ball(0.0, 0.0, 0.0, 0.5, matte(RGB::new(1, 1, 1))));
    scene.add_obj(ball(1.0, 0.0, 0.0, 0.5, matte(RGB::new(1, 1, 1))));
    assert_eq!(scene.ind_viewing(&vec![Some(5.0), Some(4.0), Some(1.0)]), Some(1));
    assert_eq!(scene.ind_viewing(&vec![None, None, Some(1.0)]), None);
    assert_eq!(scene.ind_viewing(&vec![Some(5.0)]), Some(0));
}

#[test]
fn two_spheres_along_one_ray() {
    let mut scene: Scene<f32> = Scene::new();
    scene.add_obj(ball(6.0, 0.0, 0.0, 1.0, matte(RGB::new(1, 1, 1))));
    scene.add_obj(ball(3.0, 0.0, 0.0, 1.0, matte(RGB::new(2, 2, 2))));
    let root = Vec3::new(0.0f32, 0.0, 0.0);
    let dir = Vec3::new(1.0f32, 0.0, 0.0);
    let hits = distances(&scene, root, dir);
    assert_eq!(hits, vec![Some(5.0), Some(2.0)]);
    assert_eq!(scene.ind_viewing(&hits), Some(1));
    let away = distances(&scene, root, Vec3::new(-1.0, 0.0, 0.0));
    assert_eq!(away, vec![None, None]);
    assert_eq!(scene.ind_viewing(&away), None);
}

#[test]
fn ray_from_inside_a_sphere_does_not_meet_it() {
    let s = ball(0.0, 0.0, 0.0, 2.0, matte(RGB::new(1, 1, 1)));
    let inside = Vec3::new(0.5f32, 0.25, -0.5);
    assert_eq!(distance(&s, inside, Vec3::new(1.0, 0.0, 0.0)), None);
    assert_eq!(distance(&s, inside, Vec3::new(-1.0, 2.0, 0.5)), None);
    assert_eq!(distance(&s, Vec3::new(0.0, 0.0, 0.0), Vec3::new(0.0, 0.0, 1.0)), None);
    let on = Vec3::new(2.0f32, 0.0, 0.0);
    assert_eq!(distance(&s, on, Vec3::new(-1.0, 0.0, 0.0)), None);
    assert!(!meets(&1.0f32, &4.0, &1.0, &0.0));
    assert!(!meets(&4.0f32, &4.0, &2.0, &0.0));
}

#[test]
fn ray_aimed_at_the_centre_meets_the_near_side() {
    let s = ball(0.0, 0.0, 10.0, 2.5, matte(RGB::new(1, 1, 1)));
    let d = distance(&s, Vec3::new(0.0, 0.0, 0.0), Vec3::new(0.0, 0.0, 3.0)).unwrap();
    assert!((d - 7.5).abs() < 1e-5);
    let t = ball(3.0, 4.0, 0.0, 1.0, matte(RGB::new(1, 1, 1)));
    let e = distance(&t, Vec3::new(0.0, 0.0, 0.0), Vec3::new(3.0, 4.0, 0.0)).unwrap();
    assert!((e - 4.0).abs() < 1e-5);
}

#[test]
fn meets_follows_the_three_comparisons() {
    assert!(meets(&100.0f32, &4.0, &10.0, &0.0));
    assert!(meets(&100.0f32, &4.0, &9.0, &4.0));
    assert!(!meets(&100.0f32, &4.0, &9.0, &4.5));
    assert!(!meets(&100.0f32, &4.0, &0.0, &1.0));
    assert!(!meets(&100.0f32, &4.0, &-3.0, &1.0));
    assert!(!meets(&100.0f32, &4.0, &3.0, &f32::NAN));
    assert!(meets(&100i64, &4, &10, &0));
    assert!(!meets(&3i64, &4, &10, &0));
}

#[test]
fn a_sine_of_one_or_more_throws_the_ray_back() {
    assert!(reflects_totally(&1.0f32));
    assert!(reflects_totally(&1.3f32));
    assert!(!reflects_totally(&0.999f32));
    assert!(!reflects_totally(&0.0f32));
    assert!(!reflects_totally(&f32::NAN));
}
