use new_rt::fixed::Fx;
use new_rt::{Axis, Color, Matrix, Object, Pattern, Point, Shape, Sphere, Vector};

fn fx(v: f64) -> Fx {
    Fx::new_raw((v * 100000.0).round() as i64)
}

fn pt(x: f64, y: f64, z: f64) -> Point {
    Point::new(fx(x), fx(y), fx(z))
}

fn vec(x: f64, y: f64, z: f64) -> Vector {
    Vector::new(fx(x), fx(y), fx(z))
}

fn col(r: f64, g: f64, b: f64) -> Color {
    Color::new(fx(r), fx(g), fx(b))
}

#[test]
fn test_creating_stripe_pattern() {
    let white = col(1., 1., 1.);
    let black = col(0., 0., 0.);

    let pattern = Pattern::new(white, black, Axis::X, false);

    assert_eq!(white.r, pattern.a.r);
    assert_eq!(white.g, pattern.a.g);
    assert_eq!(white.b, pattern.a.b);

    assert_eq!(black.r, pattern.b.r);
    assert_eq!(black.g, pattern.b.g);
    assert_eq!(black.b, pattern.b.b);
}

#[test]
fn test_stripe_pattern_is_const_x() {
    let white = col(1., 1., 1.);
    let black = col(0., 0., 0.);

    let pattern = Pattern::new(white, black, Axis::X, false);

    assert_eq!(pattern.stripe_at(&pt(0.0, 0.0, 0.0)).r, fx(1.));
    assert_eq!(pattern.stripe_at(&pt(0.0, 1.0, 0.0)).r, fx(1.));
    assert_eq!(pattern.stripe_at(&pt(0.0, 2.0, 0.0)).r, fx(1.));

    assert_eq!(pattern.stripe_at(&pt(0.0, 0.0, 1.0)).r, fx(1.));
    assert_eq!(pattern.stripe_at(&pt(0.0, 0.0, 2.0)).r, fx(1.));

    assert_eq!(pattern.stripe_at(&pt(0.9, 0.0, 0.0)).r, fx(1.));
    assert_eq!(pattern.stripe_at(&pt(1.0, 0.0, 0.0)).r, fx(0.));
    assert_eq!(pattern.stripe_at(&pt(-0.1, 0.0, 0.0)).r, fx(0.));
    assert_eq!(pattern.stripe_at(&pt(-1.1, 0.0, 0.0)).r, fx(1.));
}

#[test]
fn test_stripes_with_an_obj_transformation() {
    let white = col(1., 1., 1.);
    let black = col(0., 0., 0.);

    let pattern = Pattern::new(white, black, Axis::X, false);
    let mut material = new_rt::Material::new();
    material.pattern = Some(pattern);

    let mut obj = Object::new(Shape::Sphere(Sphere::new(fx(1.0)))).material(material);

    assert!(obj.scale(vec(2., 2., 2.)));
    let color = obj.material.pattern.unwrap().stripe_at_object(&obj, &pt(1.5, 0., 0.));
    assert_eq!(color.r, fx(1.));
    assert_eq!(color.g, fx(1.));
    assert_eq!(color.b, fx(1.));
}

#[test]
fn test_stripe_with_pattern_trans() {
    let white = col(1., 1., 1.);
    let black = col(0., 0., 0.);

    let pattern = Pattern::new(white, black, Axis::X, false);
    let mut material = new_rt::Material::new();
    material.pattern = Some(pattern);
    material.ambient = fx(1.);
    material.diffuse = fx(0.);
    material.specular = fx(0.);

    let mut obj = Object::new(Shape::Sphere(Sphere::new(fx(1.0)))).material(material);

    assert!(obj.scale(vec(2., 2., 2.)));
    let color = obj.material.pattern.unwrap().stripe_at_object(&obj, &pt(1.5, 0., 0.));
    assert_eq!(color.r, fx(1.));
    assert_eq!(color.g, fx(1.));
    assert_eq!(color.b, fx(1.));
}

#[test]
fn test_stripe_with_both_obj_pattern_trans() {
    let white = col(1., 1., 1.);
    let black = col(0., 0., 0.);

    let pattern = Pattern::new(white, black, Axis::X, false);
    let mut material = new_rt::Material::new();
    material.pattern = Some(pattern);
    material.ambient = fx(1.);
    material.diffuse = fx(0.);
    material.specular = fx(0.);

    let mut obj = Object::new(Shape::Sphere(Sphere::new(fx(1.0)))).material(material);

    assert!(obj.scale(vec(2., 2., 2.)));
    let color = obj.material.pattern.unwrap().stripe_at_object(&obj, &pt(1.5, 0., 0.));
    assert_eq!(color.r, fx(1.));
    assert_eq!(color.g, fx(1.));
    assert_eq!(color.b, fx(1.));
}

#[test]
fn test_assigning_transformation() {
    let white = col(1., 1., 1.);
    let black = col(0., 0., 0.);

    let mut pattern = Pattern::new(white, black, Axis::X, false);
    assert!(pattern.translate(vec(1., 2., 3.)));

    assert!(pattern.local_to_world.approx_eq(&Matrix::translation(vec(1., 2., 3.))));
}

#[test]
fn test_pattern_with_obj_transformation() {
    let mut sphere = Object::new(Shape::Sphere(Sphere::new(fx(1.0))));

    assert!(sphere.scale(vec(2., 2., 2.)));

    let white = col(1., 1.5, 2.);
    let black = col(0., 0., 0.);

    let pattern = Pattern::new(black, white, Axis::X, false);
    sphere.material.pattern = Some(pattern);
    let color = sphere.material.pattern.unwrap().stripe_at_object(&sphere, &pt(2., 3., 4.));
    assert_eq!(color.r, fx(1.));
    assert_eq!(color.g, fx(1.5));
    assert_eq!(color.b, fx(2.));
}

#[test]
fn test_pattern_with_pattern_transformation() {
    let mut sphere = Object::new(Shape::Sphere(Sphere::new(fx(1.0))));

    let white = col(1., 1.5, 2.);
    let black = col(0., 0., 0.);

    let mut pattern = Pattern::new(black, white, Axis::X, false);
    assert!(pattern.scale(vec(2., 2., 2.)));
    sphere.material.pattern = Some(pattern);
    let color = sphere.material.pattern.unwrap().stripe_at_object(&sphere, &pt(2., 3., 4.));
    assert_eq!(color.r, fx(1.));
    assert_eq!(color.g, fx(1.5));
    assert_eq!(color.b, fx(2.));
}

#[test]
fn test_pattern_with_both_obj_pattern_transformation() {
    let mut sphere = Object::new(Shape::Sphere(Sphere::new(fx(1.0))));

    assert!(sphere.scale(vec(2., 2., 2.)));

    let white = col(1., 1.5, 2.);
    let black = col(0.75, 0.5, 0.25);

    let mut pattern = Pattern::new(black, white, Axis::X, false);
    assert!(pattern.translate(vec(0.5, 1., 1.5)));
    sphere.material.pattern = Some(pattern);
    let color = sphere.material.pattern.unwrap().stripe_at_object(&sphere, &pt(2.5, 3., 3.5));
    assert_eq!(color.r, fx(0.75));
    assert_eq!(color.g, fx(0.5));
    assert_eq!(color.b, fx(0.25));
}

#[test]
fn test_gradiant_linearly_interpolate_between_colors() {
    let white = col(1., 1., 1.);
    let black = col(0., 0., 0.);

    let pattern = Pattern::new(white, black, Axis::X, true);

    let mut color = pattern.pattern_at(&pt(0.25, 0., 0.));
    assert_eq!(color.r, fx(0.75));
    assert_eq!(color.g, fx(0.75));
    assert_eq!(color.b, fx(0.75));

    color = pattern.pattern_at(&pt(0.5, 0., 0.));
    assert_eq!(color.r, fx(0.5));
    assert_eq!(color.g, fx(0.5));
    assert_eq!(color.b, fx(0.5));

    color = pattern.pattern_at(&pt(0.75, 0., 0.));
    assert_eq!(color.r, fx(0.25));
    assert_eq!(color.g, fx(0.25));
    assert_eq!(color.b, fx(0.25));
}

#[test]
fn test_ring_should_extend_both_x_y() {
    let white = col(1., 1., 1.);
    let black = col(0., 0., 0.);

    let pattern = Pattern::new(white, black, Axis::XZ, false);

    let mut color = pattern.stripe_at(&pt(0., 0., 0.));
    assert_eq!(color.r, fx(1.));

    color = pattern.stripe_at(&pt(0., 0., 1.));
    assert_eq!(color.r, fx(0.));

    color = pattern.stripe_at(&pt(1., 0., 0.));
    assert_eq!(color.r, fx(0.));
}

#[test]
fn test_check_should_repeat_x() {
    let white = col(1., 1., 1.);
    let black = col(0., 0., 0.);

    let pattern = Pattern::new(white, black, Axis::XYZ, false);

    assert_eq!(pattern.stripe_at(&pt(0., 0., 0.)).r, fx(1.));
    assert_eq!(pattern.stripe_at(&pt(0.99, 0., 0.)).r, fx(1.));
    assert_eq!(pattern.stripe_at(&pt(1.01, 0., 0.)).r, fx(0.));
}

#[test]
fn test_check_should_repeat_y() {
    let white = col(1., 1., 1.);
    let black = col(0., 0., 0.);

    let pattern = Pattern::new(white, black, Axis::XYZ, false);

    assert_eq!(pattern.stripe_at(&pt(0., 0., 0.)).r, fx(1.));
    assert_eq!(pattern.stripe_at(&pt(0., 0.99, 0.)).r, fx(1.));
    assert_eq!(pattern.stripe_at(&pt(0., 1.01, 0.)).r, fx(0.));
}

#[test]
fn test_check_should_repeat_z() {
    let white = col(1., 1., 1.);
    let black = col(0., 0., 0.);

    let pattern = Pattern::new(white, black, Axis::XYZ, false);

    assert_eq!(pattern.stripe_at(&pt(0., 0., 0.)).r, fx(1.));
    assert_eq!(pattern.stripe_at(&pt(0., 0., 0.99)).r, fx(1.));
    assert_eq!(pattern.stripe_at(&pt(0., 0., 1.01)).r, fx(0.));
}
