use new_rt::fixed::Fx;
use new_rt::{Color, Material, Object, Shape, Sphere};

fn fx(v: f64) -> Fx {
    Fx::new_raw((v * 100000.0).round() as i64)
}

#[test]
fn test_setup_material() {
    let color = Color::new(fx(1.0), fx(1.0), fx(1.0));

    let material = Material {
        shininess: fx(1.0),
        specular: fx(1.0),
        color,
        ambient: fx(1.0),
        diffuse: fx(1.0),
        pattern: None,
        reflective: fx(0.0),
        refractive_index: fx(1.0),
        transparency: fx(0.0),
    };

    assert_eq!(material.color.red(), fx(1.0));
    assert_eq!(material.color.green(), fx(1.0));
    assert_eq!(material.color.blue(), fx(1.0));

    assert_eq!(material.ambient, fx(1.0));
}

#[test]
fn test_default_material() {
    let material = Material::new();

    assert_eq!(material.ambient, fx(0.1));
    assert_eq!(material.color.red(), fx(1.0));
    assert_eq!(material.color.green(), fx(1.0));
    assert_eq!(material.color.blue(), fx(1.0));
    assert_eq!(material.diffuse, fx(0.9));
    assert_eq!(material.specular, fx(0.9));
    assert_eq!(material.shininess, fx(200.0));
}

#[test]
fn test_default_material_of_sphere() {
    let sphere = Object::new(Shape::Sphere(Sphere::new(fx(1.0))));

    assert_eq!(sphere.material.ambient, fx(0.1));
    assert_eq!(sphere.material.color.red(), fx(1.0));
    assert_eq!(sphere.material.color.green(), fx(1.0));
    assert_eq!(sphere.material.color.blue(), fx(1.0));
    assert_eq!(sphere.material.diffuse, fx(0.9));
    assert_eq!(sphere.material.specular, fx(0.9));
    assert_eq!(sphere.material.shininess, fx(200.0));
}
