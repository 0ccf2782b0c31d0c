use raytracer::vector::{Ray, Vec3};

#[test]
fn new_keeps_the_components_in_order() {
    let v = Vec3::new(1.5f32, -2.0, 0.25);
    assert_eq!(v.x, 1.5);
    assert_eq!(v.y, -2.0);
    assert_eq!(v.z, 0.25);
}

#[test]
fn sum_and_difference_go_component_by_component() {
    let a = Vec3::new(1.0f32, 2.0, 3.0);
    let b = Vec3::new(0.5f32, -1.0, 4.0);
    let s = a + b;
    assert_eq!((s.x, s.y, s.z), (1.5, 1.0, 7.0));
    let d = a - b;
    assert_eq!((d.x, d.y, d.z), (0.5, 3.0, -1.0));
}

#[test]
fn product_of_two_vectors_is_the_scalar_product() {
    let a = Vec3::new(1.0f32, 2.0, 3.0);
    let b = Vec3::new(4.0f32, -5.0, 6.0);
    assert_eq!(a * b, 12.0);
    let i = Vec3::new(3i64, 4, 12);
    assert_eq!(i * i, 169);
}

#[test]
fn prod_is_the_vector_product() {
    let x = Vec3::new(1.0f32, 0.0, 0.0);
    let y = Vec3::new(0.0f32, 1.0, 0.0);
    let z = Vec3::prod(x, y);
    assert_eq!((z.x, z.y, z.z), (0.0, 0.0, 1.0));
    let back = Vec3::prod(y, x);
    assert_eq!((back.x, back.y, back.z), (0.0, 0.0, -1.0));
    let a = Vec3::new(2i64, 3, 4);
    let b = Vec3::new(5i64, 6, 7);
    let c = Vec3::prod(a, b);
    assert_eq!((c.x, c.y, c.z), (-3, 6, -3));
    assert_eq!(a * c, 0);
    assert_eq!(b * c, 0);
}

#[test]
fn prod_of_a_vector_with_itself_vanishes() {
    let a = Vec3::new(2i64, -3, 4);
    let c = Vec3::prod(a, a);
    assert_eq!((c.x, c.y, c.z), (0, 0, 0));
}

#[test]
fn scale_multiplies_every_component() {
    let v = Vec3::new(1.0f32, -2.0, 0.5).scale(4.0);
    assert_eq!((v.x, v.y, v.z), (4.0, -8.0, 2.0));
}

#[test]
fn ray_holds_root_and_direction() {
    let ray = Ray { root: Vec3::new(0.0f64, 0.0, 0.0), dir: Vec3::new(0.0f64, 0.0, 2.0) };
    let copy = ray;
    assert_eq!(copy.root.x, ray.root.x);
    assert_eq!(copy.dir.z, 2.0);
}
