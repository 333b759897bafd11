use new_rt::fixed::{Fx, EPSILON};
use new_rt::utils::are_almost_equal;
use new_rt::{
    Canvas, Color, Light, NewCanvas, Object, Point, Ray, Renderer, Shape, Sphere, Vector, World,
};

fn fx(v: f64) -> Fx {
    Fx::new_raw((v * 100000.0).round() as i64)
}

fn pt(x: f64, y: f64, z: f64) -> Point {
    Point::new(fx(x), fx(y), fx(z))
}

fn vec(x: f64, y: f64, z: f64) -> Vector {
    Vector::new(fx(x), fx(y), fx(z))
}

fn renderer_for(w: World) -> Renderer {
    let canvas = Canvas::new(NewCanvas { width: 4, height: 4 });
    Renderer::new(canvas, w).unwrap()
}

#[test]
fn test_light_surface_in_shadow_0() {
    let mut w = World::new();
    let sphere = Object::new(Shape::Sphere(Sphere::new(fx(1.0))));
    w.add_object(sphere);

    let light = Light {
        position: pt(0., 0., -10.),
        intensity: Color::new(fx(1.), fx(1.), fx(1.)),
    };

    let r = renderer_for(w);
    let p = pt(0., 10., 0.);
    assert_eq!(r.is_shadowed(&p, &light), false);
}

#[test]
fn test_light_surface_in_shadow_1() {
    let mut w = World::new();
    let sphere = Object::new(Shape::Sphere(Sphere::new(fx(1.0))));
    w.add_object(sphere);
    let light = Light {
        position: pt(-10., 10., -10.),
        intensity: Color::new(fx(1.), fx(1.), fx(1.)),
    };

    let r = renderer_for(w);
    let p = pt(10., -10., 10.);
    assert_eq!(r.is_shadowed(&p, &light), true);
}

#[test]
fn test_light_surface_in_shadow_2() {
    let mut w = World::new();
    let sphere = Object::new(Shape::Sphere(Sphere::new(fx(1.0))));
    w.add_object(sphere);
    let light = Light {
        position: pt(10., -10., 10.),
        intensity: Color::new(fx(1.), fx(1.), fx(1.)),
    };

    let r = renderer_for(w);
    let p = pt(20., -20., 20.);
    assert_eq!(r.is_shadowed(&p, &light), false);
}

#[test]
fn test_light_surface_in_shadow_3() {
    let mut w = World::new();
    let sphere = Object::new(Shape::Sphere(Sphere::new(fx(1.0))));
    w.add_object(sphere);
    let light = Light {
        position: pt(10., -10., 10.),
        intensity: Color::new(fx(1.), fx(1.), fx(1.)),
    };

    let r = renderer_for(w);
    let p = pt(2., -2., 2.);
    assert_eq!(r.is_shadowed(&p, &light), false);
}

#[test]
fn test_rendering_shadow() {
    let mut w = World::new();
    let sphere1 = Object::new(Shape::Sphere(Sphere::new(fx(1.0))));
    let mut sphere2 = Object::new(Shape::Sphere(Sphere::new(fx(1.0))));

    assert!(sphere2.translate(vec(0., 0., 10.)));
    w.add_object(sphere1);
    w.add_object(sphere2);
    let light = Light {
        position: pt(0., 0., -10.),
        intensity: Color::new(fx(1.), fx(1.), fx(1.)),
    };
    w.add_light(light);

    let r = Ray { origin: pt(0., 0., 5.), direction: vec(0., 0., 1.) };
    let renderer = renderer_for(w);
    let i = renderer.world.intersect(&r, fx(1.0));

    match i {
        Some(comps) => {
            let c = renderer.shade_it(&comps);
            assert!(are_almost_equal(c.red(), fx(0.1)));
            assert!(are_almost_equal(c.green(), fx(0.1)));
            assert!(are_almost_equal(c.blue(), fx(0.1)));
        },
        None => {
            assert!(false, "Should intersect");
        },
    }
}

#[test]
fn test_the_hit_should_offset_the_point() {
    let r = Ray { origin: pt(0., 0., -5.), direction: vec(0., 0., 1.) };
    let mut sphere1 = Object::new(Shape::Sphere(Sphere::new(fx(1.0))));
    assert!(sphere1.translate(vec(0., 0., 1.)));

    let mut w = World::new();
    w.add_object(sphere1);
    let i = w.intersect(&r, fx(1.0));

    match i {
        Some(comps) => {
            assert_eq!(comps.over_point.x, fx(0.));
            assert_eq!(comps.over_point.y, fx(0.));
            assert!(comps.over_point.z.raw < -EPSILON / 2);
            assert!(comps.point.z.raw > comps.over_point.z.raw);
        },
        None => {
            assert!(false, "Should intersect");
        },
    }
}
