use new_rt::fixed::Fx;
use new_rt::utils::are_almost_equal;
use new_rt::{Color, Light, Material, Object, Point, Shape, Sphere, Vector, World};

fn fx(v: f64) -> Fx {
    Fx::new_raw((v * 100000.0).round() as i64)
}

#[test]
fn test_light_pos_and_intensity() {
    let intensity = Color::new(fx(1.0), fx(1.0), fx(1.0));
    let position = Point::new(fx(0.0), fx(0.0), fx(0.0));

    let light = Light { position, intensity };

    assert_eq!(light.position.x, fx(0.0));
    assert_eq!(light.position.y, fx(0.0));
    assert_eq!(light.position.z, fx(0.0));
    assert_eq!(light.intensity.r, fx(1.0));
    assert_eq!(light.intensity.g, fx(1.0));
    assert_eq!(light.intensity.b, fx(1.0));
}

#[test]
fn test_light_0() {
    let obj = Object::new(Shape::Sphere(Sphere::new(fx(1.0)))).material(Material::new());
    let position = Point::new(fx(0.0), fx(0.0), fx(0.0));

    let eyev = Vector::new(fx(0.0), fx(0.0), fx(-1.0));
    let normalv = Vector::new(fx(0.0), fx(0.0), fx(-1.0));

    let light = Light {
        position: Point::new(fx(0.0), fx(0.0), fx(-10.0)),
        intensity: Color::new(fx(1.0), fx(1.0), fx(1.0)),
    };

    let result = World::lighting(&obj, &light, &position, &eyev, &normalv, false);

    assert!(are_almost_equal(result.red(), fx(1.9)));
    assert!(are_almost_equal(result.green(), fx(1.9)));
    assert!(are_almost_equal(result.blue(), fx(1.9)));
}

#[test]
fn test_light_1() {
    let obj = Object::new(Shape::Sphere(Sphere::new(fx(1.0)))).material(Material::new());
    let position = Point::new(fx(0.0), fx(0.0), fx(0.0));

    let half_sqrt2 = (2.0_f64).sqrt() / 2.0;
    let eyev = Vector::new(fx(0.0), fx(half_sqrt2), fx(half_sqrt2));
    let normalv = Vector::new(fx(0.0), fx(0.0), fx(-1.0));

    let light = Light {
        position: Point::new(fx(0.0), fx(0.0), fx(-10.0)),
        intensity: Color::new(fx(1.0), fx(1.0), fx(1.0)),
    };

    let result = World::lighting(&obj, &light, &position, &eyev, &normalv, false);

    assert!(are_almost_equal(result.red(), fx(1.0)));
    assert!(are_almost_equal(result.green(), fx(1.0)));
    assert!(are_almost_equal(result.blue(), fx(1.0)));
}

#[test]
fn test_light_2() {
    let obj = Object::new(Shape::Sphere(Sphere::new(fx(1.0)))).material(Material::new());
    let position = Point::new(fx(0.0), fx(0.0), fx(0.0));

    let eyev = Vector::new(fx(0.0), fx(0.0), fx(-1.0));
    let normalv = Vector::new(fx(0.0), fx(0.0), fx(-1.0));

    let light = Light {
        position: Point::new(fx(0.0), fx(10.0), fx(-10.0)),
        intensity: Color::new(fx(1.0), fx(1.0), fx(1.0)),
    };

    let result = World::lighting(&obj, &light, &position, &eyev, &normalv, false);

    assert!(are_almost_equal(result.red(), fx(0.7363961)));
    assert!(are_almost_equal(result.green(), fx(0.7363961)));
    assert!(are_almost_equal(result.blue(), fx(0.7363961)));
}

#[test]
fn test_light_3() {
    let obj = Object::new(Shape::Sphere(Sphere::new(fx(1.0)))).material(Material::new());
    let position = Point::new(fx(0.0), fx(0.0), fx(0.0));

    let half_sqrt2 = (2.0_f64).sqrt() / 2.0;
    let eyev = Vector::new(fx(0.0), fx(-half_sqrt2), fx(-half_sqrt2));
    let normalv = Vector::new(fx(0.0), fx(0.0), fx(-1.0));

    let light = Light {
        position: Point::new(fx(0.0), fx(10.0), fx(-10.0)),
        intensity: Color::new(fx(1.0), fx(1.0), fx(1.0)),
    };

    let result = World::lighting(&obj, &light, &position, &eyev, &normalv, false);

    // The specular term raises a ratio a hair under one to the 200th
    // power, which magnifies the fixed-point grid's rounding by two
    // hundredfold; the comparison allows for that amplification.
    let expected = fx(1.6363853);
    assert!((result.red().raw - expected.raw).abs() < 500);
    assert!((result.green().raw - expected.raw).abs() < 500);
    assert!((result.blue().raw - expected.raw).abs() < 500);
}

#[test]
fn test_light_4() {
    let obj = Object::new(Shape::Sphere(Sphere::new(fx(1.0)))).material(Material::new());
    let position = Point::new(fx(0.0), fx(0.0), fx(0.0));

    let eyev = Vector::new(fx(0.0), fx(0.0), fx(-1.0));
    let normalv = Vector::new(fx(0.0), fx(0.0), fx(-1.0));

    let light = Light {
        position: Point::new(fx(0.0), fx(0.0), fx(10.0)),
        intensity: Color::new(fx(1.0), fx(1.0), fx(1.0)),
    };

    let result = World::lighting(&obj, &light, &position, &eyev, &normalv, false);

    assert!(are_almost_equal(result.red(), fx(0.1)));
    assert!(are_almost_equal(result.green(), fx(0.1)));
    assert!(are_almost_equal(result.blue(), fx(0.1)));
}
