use new_rt::fixed::Fx;
use new_rt::{Object, Point, Ray, Shape, Sphere, Vector};

fn fx(v: f64) -> Fx {
    Fx::new_raw((v * 100000.0).round() as i64)
}

fn pt(x: f64, y: f64, z: f64) -> Point {
    Point::new(fx(x), fx(y), fx(z))
}

fn vec(x: f64, y: f64, z: f64) -> Vector {
    Vector::new(fx(x), fx(y), fx(z))
}

#[test]
fn test_sphere_intersection() {
    let obj = Object::new(Shape::Sphere(Sphere::new(fx(1.0))));

    let ray = Ray::new(pt(0.0, 0.0, 5.0), vec(0.0, 0.0, -1.0));

    let result = obj.intersect(&ray, fx(1.0));

    assert!(result.is_some(), "Expected an intersection, but got none");
}

#[test]
fn test_sphere_no_intersection() {
    let obj = Object::new(Shape::Sphere(Sphere::new(fx(1.0))));

    let ray = Ray::new(pt(0.0, 0.0, 5.0), vec(0.0, 0.0, 1.0));

    let result = obj.intersect(&ray, fx(1.0));

    assert!(result.is_none(), "Expected no intersection, but got one");
}

#[test]
fn test_sphere_intersection_with_translation() {
    let mut obj = Object::new(Shape::Sphere(Sphere::new(fx(1.0))));
    assert!(obj.translate(vec(2.0, 0.0, 2.0)));

    let ray = Ray::new(pt(0.0, 0.0, 0.0), vec(1.0, 0.0, 1.0).normalize());

    let result = obj.intersect(&ray, fx(1.0));

    assert!(result.is_some(), "Expected an intersection, but got none");
}

#[test]
fn test_sphere_intersection_0() {
    let obj = Object::new(Shape::Sphere(Sphere::new(fx(1.0))));

    let ray = Ray::new(pt(0.0, 0.0, -5.0), vec(0.0, 0.0, 1.0).normalize());
    let result = obj.intersect(&ray, fx(1.0)).unwrap();
    assert_eq!(result.t, fx(4.0));
}

#[test]
fn test_sphere_intersection_1() {
    let obj = Object::new(Shape::Sphere(Sphere::new(fx(1.0))));

    let ray = Ray::new(pt(0.0, 1.0, -5.0), vec(0.0, 0.0, 1.0).normalize());
    let result = obj.intersect(&ray, fx(1.0)).unwrap();
    assert_eq!(result.t, fx(5.0));
}

#[test]
fn test_ray_miss_sphere() {
    let obj = Object::new(Shape::Sphere(Sphere::new(fx(1.0))));

    let ray = Ray::new(pt(0.0, 2.0, -5.0), vec(0.0, 0.0, 1.0).normalize());
    let result = obj.intersect(&ray, fx(1.0)).is_none();
    assert!(result);
}

#[test]
fn test_ray_origin_in_sphere() {
    let obj = Object::new(Shape::Sphere(Sphere::new(fx(1.0))));

    let ray = Ray::new(pt(0.0, 0.0, 0.0), vec(0.0, 0.0, 1.0).normalize());
    let result = obj.intersect(&ray, fx(1.0)).unwrap();
    assert_eq!(result.t, fx(1.0));
}

#[test]
fn test_ray_miss_sphere_2() {
    let obj = Object::new(Shape::Sphere(Sphere::new(fx(1.0))));

    let ray = Ray::new(pt(0.0, 0.0, 5.0), vec(0.0, 0.0, 1.0).normalize());
    let result = obj.intersect(&ray, fx(1.0)).is_none();
    assert!(result);
}

#[test]
fn test_sphere_intersection_impact_point() {
    let obj = Object::new(Shape::Sphere(Sphere::new(fx(1.0))));

    let ray = Ray::new(pt(0.0, 0.0, 5.0), vec(0.0, 0.0, 1.0).normalize());
    let result = obj.intersect(&ray, fx(1.0)).is_none();
    assert!(result);
}
