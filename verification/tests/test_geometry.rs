use new_rt::fixed::Fx;
use new_rt::{
    Canvas, Color, Cone, Cube, Cylinder, Disk, Light, Matrix, NewCanvas, Object, Plane, Point,
    Ray, Renderer, Shape, Sphere, Torus, Triangle, Tube, Vector, World,
};

fn fx(v: f64) -> Fx {
    Fx::new_raw((v * 100000.0).round() as i64)
}

fn pt(x: f64, y: f64, z: f64) -> Point {
    Point::new(fx(x), fx(y), fx(z))
}

fn vec(x: f64, y: f64, z: f64) -> Vector {
    Vector::new(fx(x), fx(y), fx(z))
}

#[test]
fn test_inverse_round_trip() {
    let m = Matrix::from_cols(
        fx(8.), fx(7.), fx(-6.), fx(-3.),
        fx(-5.), fx(5.), fx(0.), fx(0.),
        fx(9.), fx(6.), fx(9.), fx(-9.),
        fx(2.), fx(1.), fx(6.), fx(-4.),
    );
    let inv = m.inverse().unwrap();
    assert!(m.mul_mat(&inv).approx_eq(&Matrix::identity()));
    assert!(inv.mul_mat(&m).approx_eq(&Matrix::identity()));

    // Inverting twice returns to the start for a well-conditioned pose
    // transform: scaling by two with a translation.
    let pose = Matrix::translation(vec(1., 2., 3.)).mul_mat(&Matrix::scaling(vec(2., 2., 2.)));
    let pose_inv = pose.inverse().unwrap();
    let back = pose_inv.inverse().unwrap();
    assert!(back.approx_eq(&pose));
}

#[test]
fn test_translation_composition() {
    let t1 = Matrix::translation(vec(1., 2., 3.));
    let t2 = Matrix::translation(vec(4., -5., 6.));
    let combined = t1.mul_mat(&t2);
    let direct = Matrix::translation(vec(5., -3., 9.));
    assert_eq!(combined, direct);
}

#[test]
fn test_reflection_identity_axis_normals() {
    let v = vec(1.0, -2.5, 0.75);
    for n in [
        vec(1., 0., 0.),
        vec(-1., 0., 0.),
        vec(0., 1., 0.),
        vec(0., -1., 0.),
        vec(0., 0., 1.),
        vec(0., 0., -1.),
    ] {
        let r = v.reflect(&n);
        assert_eq!(r.dot(&n).raw, -v.dot(&n).raw);
    }
}

#[test]
fn test_unit_sphere_normal_is_point() {
    let s = Sphere::new(fx(1.0));
    let p = pt(0., 0., 1.);
    let n = s.normal_at(p);
    assert_eq!(n.x, fx(0.));
    assert_eq!(n.y, fx(0.));
    assert_eq!(n.z, fx(1.));
    assert_eq!(n.magnitude(), fx(1.0));
}

#[test]
fn test_cube_face_normals() {
    let obj = Object::new(Shape::Cube(Cube::new(fx(1.0))));
    let cases = [
        (pt(5., 0., 0.), vec(-1., 0., 0.), vec(1., 0., 0.)),
        (pt(-5., 0., 0.), vec(1., 0., 0.), vec(-1., 0., 0.)),
        (pt(0., 5., 0.), vec(0., -1., 0.), vec(0., 1., 0.)),
        (pt(0., -5., 0.), vec(0., 1., 0.), vec(0., -1., 0.)),
        (pt(0., 0., 5.), vec(0., 0., -1.), vec(0., 0., 1.)),
        (pt(0., 0., -5.), vec(0., 0., 1.), vec(0., 0., -1.)),
    ];
    for (origin, dir, expected) in cases {
        let hit = obj.intersect(&Ray::new(origin, dir), fx(1.0)).unwrap();
        assert_eq!(hit.normal.x, expected.x);
        assert_eq!(hit.normal.y, expected.y);
        assert_eq!(hit.normal.z, expected.z);
    }
}

#[test]
fn test_update_twice_is_byte_identical() {
    let mut obj = Object::new(Shape::Sphere(Sphere::new(fx(1.0))));
    assert!(obj.translate(vec(1., 2., 3.)));
    assert!(obj.rotate(fx(0.3), fx(0.2), fx(0.1)));
    let ltw1 = obj.local_to_world;
    let wtl1 = obj.world_to_local;
    assert!(obj.update());
    assert_eq!(obj.local_to_world, ltw1);
    assert_eq!(obj.world_to_local, wtl1);
}

#[test]
fn test_degenerate_scale_is_rejected() {
    let mut obj = Object::new(Shape::Sphere(Sphere::new(fx(1.0))));
    let before_ltw = obj.local_to_world;
    assert!(!obj.scale(vec(0., 1., 1.)));
    assert_eq!(obj.local_to_world, before_ltw);
    assert_eq!(obj.scale_factors(), vec(1., 1., 1.));
}

#[test]
fn test_plane_intersection_and_parallel_miss() {
    let plane = Plane::new();
    let hit = plane.intersect(Ray::new(pt(0., 2., 0.), vec(0., -1., 0.))).unwrap();
    assert_eq!(hit.t, fx(2.0));
    assert_eq!(hit.normal.y, fx(1.0));

    let miss = plane.intersect(Ray::new(pt(0., 2., 0.), vec(1., 0., 0.)));
    assert!(miss.is_none());

    let below = plane.intersect(Ray::new(pt(0., -2., 0.), vec(0., 1., 0.))).unwrap();
    assert_eq!(below.normal.y, fx(-1.0));
}

#[test]
fn test_disk_radius_bound() {
    let disk = Disk::new(fx(1.0));
    let hit = disk.intersect(Ray::new(pt(0.5, 2., 0.), vec(0., -1., 0.)));
    assert!(hit.is_some());
    let miss = disk.intersect(Ray::new(pt(1.5, 2., 0.), vec(0., -1., 0.)));
    assert!(miss.is_none());
}

#[test]
fn test_tube_wall_hit() {
    let tube = Tube::new(fx(1.0), fx(2.0));
    let hit = tube.intersect(Ray::new(pt(0., 0., -5.), vec(0., 0., 1.))).unwrap();
    assert_eq!(hit.t, fx(4.0));
    let above = tube.intersect(Ray::new(pt(0., 5., -5.), vec(0., 0., 1.)));
    assert!(above.is_none());
}

#[test]
fn test_cylinder_wall_and_cap() {
    let cyl = Cylinder::new(fx(1.0), fx(2.0));
    let wall = cyl.intersect(Ray::new(pt(0., 0., -5.), vec(0., 0., 1.))).unwrap();
    assert_eq!(wall.t, fx(4.0));

    let cap = cyl.intersect(Ray::new(pt(0.5, 5., 0.), vec(0., -1., 0.))).unwrap();
    assert_eq!(cap.t, fx(4.0));
    assert_eq!(cap.normal.y, fx(1.0));
}

#[test]
fn test_cone_base_hit() {
    let cone = Cone::new(fx(1.0), fx(1.0));
    let base = cone.intersect(Ray::new(pt(0.2, -3., 0.), vec(0., 1., 0.))).unwrap();
    assert_eq!(base.t, fx(3.0));
    assert_eq!(base.normal.y, fx(-1.0));
}

#[test]
fn test_torus_never_intersects() {
    let torus = Torus::new(fx(2.0), fx(0.5));
    assert!(torus.intersect(Ray::new(pt(0., 0., -5.), vec(0., 0., 1.))).is_none());
    assert_eq!(torus.normal_at(pt(0., 0., 0.)).y, fx(1.0));
}

#[test]
fn test_triangle_hit_and_miss() {
    let tri = Triangle::new(pt(-1., 0., 0.), pt(1., 0., 0.), pt(0., 2., 0.));
    let hit = tri.intersect(Ray::new(pt(0., 0.5, -3.), vec(0., 0., 1.))).unwrap();
    assert_eq!(hit.t, fx(3.0));
    let miss = tri.intersect(Ray::new(pt(5., 5., -3.), vec(0., 0., 1.)));
    assert!(miss.is_none());
}

#[test]
fn test_world_nearest_hit_wins() {
    let mut w = World::new();
    let near = Object::new(Shape::Sphere(Sphere::new(fx(1.0))));
    let mut far = Object::new(Shape::Sphere(Sphere::new(fx(1.0))));
    assert!(far.translate(vec(0., 0., -5.)));
    w.add_object(far);
    w.add_object(near);

    let hit = w.intersect(&Ray::new(pt(0., 0., 10.), vec(0., 0., -1.)), fx(1.0)).unwrap();
    assert_eq!(hit.object_index, 1);
    assert_eq!(hit.t, fx(9.0));
}

#[test]
fn test_canvas_ppm_encoding() {
    let mut canvas = Canvas::new(NewCanvas { width: 1, height: 1 });
    canvas.write(0, 0, Color::new(fx(1.0), fx(0.5), fx(0.0)));
    let ppm = canvas.to_ppm();
    assert_eq!(ppm, b"P3\n1 1\n255\n255 127 0 \n".to_vec());
}

#[test]
fn test_canvas_packed_pixels() {
    let mut canvas = Canvas::new(NewCanvas { width: 2, height: 1 });
    canvas.write(0, 0, Color::new(fx(1.0), fx(0.0), fx(0.0)));
    canvas.write(1, 0, Color::new(fx(0.0), fx(0.0), fx(1.0)));
    let buffer = canvas.pixels();
    assert_eq!(buffer, vec![255 * 65536, 255]);
}

#[test]
fn test_render_small_scene() {
    let mut w = World::new();
    let sphere = Object::new(Shape::Sphere(Sphere::new(fx(2.0))));
    w.add_object(sphere);
    w.add_light(Light {
        position: pt(0., 5., 10.),
        intensity: Color::new(fx(1.), fx(1.), fx(1.)),
    });

    let canvas = Canvas::new(NewCanvas { width: 9, height: 9 });
    let mut renderer = Renderer::new(canvas, w).unwrap();
    assert!(renderer.update_image());

    // The center ray points straight at the sphere: the pixel is lit above
    // the sky and carries at least the fixed ambient floor.
    let center = renderer.canvas.at(4, 4);
    assert!(center.r.raw >= fx(0.1).raw);

    // A corner ray misses: that pixel keeps the sky color.
    let corner = renderer.canvas.at(0, 0);
    assert_eq!(corner.r, fx(0.0));
    assert_eq!(corner.g, fx(0.0));
    assert_eq!(corner.b, fx(0.0));
}

#[test]
fn test_projection_rejects_flat_depth_range() {
    let p = Matrix::projection(fx(0.8), fx(1.0), fx(1.0), fx(1.0));
    assert!(p.is_none());
    let ok = Matrix::projection(fx(0.8), fx(1.0), fx(0.1), fx(100.0));
    assert!(ok.is_some());
}

#[test]
fn test_sphere_zero_direction_no_hit() {
    let s = Sphere::new(fx(1.0));
    let r = Ray::new(pt(0., 0., -5.), vec(0., 0., 0.));
    assert!(s.intersect(r).is_none());
}

#[test]
fn test_cube_local_normal_is_unit() {
    let cube = Cube::new(fx(1.0));
    let n = cube.normal_at(pt(0.5, 0.1, -0.2));
    assert_eq!(n.x, fx(1.0));
    assert_eq!(n.y, fx(0.0));
    assert_eq!(n.z, fx(0.0));
    assert_eq!(n.magnitude(), fx(1.0));

    let m = cube.normal_at(pt(0.1, -0.5, 0.2));
    assert_eq!(m.y, fx(-1.0));
    assert_eq!(m.magnitude(), fx(1.0));
}

#[test]
fn test_singular_matrix_has_no_inverse() {
    let flat = Matrix::scaling(vec(0., 1., 1.));
    assert!(flat.inverse().is_none());
}

#[test]
fn test_normalize_axis_vector_has_unit_magnitude() {
    let v = vec(4.0, 0.0, 0.0);
    let n = v.normalize();
    assert_eq!(n.x, fx(1.0));
    assert_eq!(n.magnitude(), fx(1.0));
}

#[test]
fn test_texture_bilinear_filtering() {
    let red = Color::new(fx(1.0), fx(0.0), fx(0.0));
    let blue = Color::new(fx(0.0), fx(0.0), fx(1.0));
    let tex = new_rt::Texture::new(2, 1, vec![red, blue]);

    let left = tex.sample_uv_filtered(fx(0.0), fx(0.0));
    assert_eq!(left.r, fx(1.0));
    assert_eq!(left.b, fx(0.0));

    let right = tex.sample_uv_filtered(fx(1.0), fx(0.0));
    assert_eq!(right.r, fx(0.0));
    assert_eq!(right.b, fx(1.0));

    let mid = tex.sample_uv_filtered(fx(0.5), fx(0.0));
    assert_eq!(mid.r, fx(0.5));
    assert_eq!(mid.b, fx(0.5));
}

#[test]
fn test_toroidal_uv_on_outer_equator() {
    let (u, v) = new_rt::TextureMapping::toroidal_uv(&pt(3.0, 0.0, 0.0), fx(2.0), fx(0.5));
    assert!(new_rt::utils::are_almost_equal(u, fx(0.5)));
    assert!(new_rt::utils::are_almost_equal(v, fx(0.5)));
}
