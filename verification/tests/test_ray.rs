use new_rt::fixed::Fx;
use new_rt::{Point, Ray, Vector};

fn fx(v: f64) -> Fx {
    Fx::new_raw((v * 100000.0).round() as i64)
}

#[test]
fn test_position_ray_0() {
    let point = Point::new(fx(2.0), fx(3.0), fx(4.0));
    let vector = Vector::new(fx(1.0), fx(0.0), fx(0.0));
    let ray = Ray::new(point, vector);
    let result = ray.position(fx(1.0));
    assert_eq!(result.x, fx(3.0));
    assert_eq!(result.y, fx(3.0));
    assert_eq!(result.z, fx(4.0));
}

#[test]
fn test_position_ray_1() {
    let point = Point::new(fx(2.0), fx(3.0), fx(4.0));
    let vector = Vector::new(fx(1.0), fx(0.0), fx(0.0));
    let ray = Ray::new(point, vector);
    let result = ray.position(fx(2.5));
    assert_eq!(result.x, fx(4.5));
    assert_eq!(result.y, fx(3.0));
    assert_eq!(result.z, fx(4.0));
}

#[test]
fn test_position_ray_2() {
    let point = Point::new(fx(2.0), fx(3.0), fx(4.0));
    let vector = Vector::new(fx(1.0), fx(0.0), fx(0.0));
    let ray = Ray::new(point, vector);
    let result = ray.position(fx(-1.0));
    assert_eq!(result.x, fx(1.0));
    assert_eq!(result.y, fx(3.0));
    assert_eq!(result.z, fx(4.0));
}
