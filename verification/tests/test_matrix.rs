use new_rt::fixed::Fx;
use new_rt::{Matrix, Point, Vector};

fn fx(v: f64) -> Fx {
    Fx::new_raw((v * 100000.0).round() as i64)
}

fn pt(x: f64, y: f64, z: f64) -> Point {
    Point::new(fx(x), fx(y), fx(z))
}

fn vec(x: f64, y: f64, z: f64) -> Vector {
    Vector::new(fx(x), fx(y), fx(z))
}

fn from_col(c: [[f64; 4]; 4]) -> Matrix {
    Matrix::from_cols(
        fx(c[0][0]), fx(c[0][1]), fx(c[0][2]), fx(c[0][3]),
        fx(c[1][0]), fx(c[1][1]), fx(c[1][2]), fx(c[1][3]),
        fx(c[2][0]), fx(c[2][1]), fx(c[2][2]), fx(c[2][3]),
        fx(c[3][0]), fx(c[3][1]), fx(c[3][2]), fx(c[3][3]),
    )
}

#[test]
fn test_matrix_creation() {
    let m = from_col([
        [1., 5.5, 9., 13.5],
        [2., 6.5, 10., 14.5],
        [3., 7.5, 11., 15.5],
        [4., 8.5, 12., 16.5],
    ]);

    assert_eq!(m.at(0, 0), fx(1.));
    assert_eq!(m.at(3, 0), fx(4.));
    assert_eq!(m.at(0, 1), fx(5.5));
    assert_eq!(m.at(2, 1), fx(7.5));
    assert_eq!(m.at(2, 2), fx(11.));
}

#[test]
fn test_matrix_equality() {
    let m1 = from_col([
        [1., 5., 9., 5.],
        [2., 6., 8., 4.],
        [3., 7., 7., 3.],
        [4., 8., 6., 2.],
    ]);

    let m2 = from_col([
        [1., 5., 9., 5.],
        [2., 6., 8., 4.],
        [3., 7., 7., 3.],
        [4., 8., 6., 2.],
    ]);

    assert!(m1.approx_eq(&m2));
}

#[test]
fn test_matrix_inequality() {
    let m1 = from_col([
        [1., 5., 9., 5.],
        [2., 6., 8., 4.],
        [3., 7., 7., 3.],
        [4., 8., 6., 2.],
    ]);

    let m2 = from_col([
        [2., 6., 8., 4.],
        [3., 7., 7., 3.],
        [4., 8., 6., 2.],
        [5., 9., 5., 1.],
    ]);

    assert!(!m1.approx_eq(&m2));
}

#[test]
fn test_matrix_mul() {
    let m1 = from_col([
        [1., 5., 9., 5.],
        [2., 6., 8., 4.],
        [3., 7., 7., 3.],
        [4., 8., 6., 2.],
    ]);

    let m2 = from_col([
        [-2., 3., 4., 1.],
        [1., 2., 3., 2.],
        [2., 1., 6., 7.],
        [3., -1., 5., 8.],
    ]);

    let result = from_col([
        [20., 44., 40., 16.],
        [22., 54., 58., 26.],
        [50., 114., 110., 46.],
        [48., 108., 102., 42.],
    ]);

    assert!(result.approx_eq(&m1.mul_mat(&m2)));
}

#[test]
fn test_matrix_point_mul() {
    let m = from_col([
        [1., 2., 8., 0.],
        [2., 4., 6., 0.],
        [3., 4., 4., 0.],
        [4., 2., 1., 1.],
    ]);

    let v = pt(1., 2., 3.);
    let result = pt(18., 24., 33.);

    assert!(result.approx_eq(&m.mul_point(&v)));
}

#[test]
fn test_matrix_vector_mul() {
    let m = from_col([
        [1., 2., 8., 0.],
        [2., 4., 6., 0.],
        [3., 4., 4., 0.],
        [4., 2., 1., 1.],
    ]);

    let v = vec(1., 2., 3.);
    let result = vec(14., 22., 32.);

    assert!(result.approx_eq(&m.mul_vector(&v)));
}

#[test]
fn test_matrix_mul_by_identity() {
    let m = from_col([
        [0., 1., 2., 4.],
        [1., 2., 4., 8.],
        [2., 4., 8., 16.],
        [4., 8., 16., 32.],
    ]);

    let i = Matrix::identity();

    assert!(m.approx_eq(&i.mul_mat(&m)));
    assert!(m.approx_eq(&m.mul_mat(&i)));
}

#[test]
fn test_matrix_transpose() {
    let m = from_col([
        [0., 9., 1., 0.],
        [9., 8., 8., 0.],
        [3., 0., 5., 5.],
        [0., 8., 3., 8.],
    ]);

    let r = from_col([
        [0., 9., 3., 0.],
        [9., 8., 0., 8.],
        [1., 8., 5., 3.],
        [0., 0., 5., 8.],
    ]);

    assert!(r.approx_eq(&m.transpose()));
}

#[test]
fn test_identity_matrix_transpose() {
    let m = Matrix::identity();
    assert!(m.approx_eq(&m.transpose()));
}

#[test]
fn test_matrix_inverse_1() {
    let m = from_col([
        [8., 7., -6., -3.],
        [-5., 5., 0., 0.],
        [9., 6., 9., -9.],
        [2., 1., 6., -4.],
    ]);

    let i = from_col([
        [-0.15385, -0.07692, 0.35897, -0.69231],
        [-0.15385, 0.12308, 0.35897, -0.69231],
        [-0.28205, 0.02564, 0.43590, -0.76923],
        [-0.53846, 0.03077, 0.92308, -1.92308],
    ]);

    assert!(i.approx_eq(&m.inverse().unwrap()));
}

#[test]
fn test_matrix_inverse_2() {
    let m = from_col([
        [9., -5., -4., -7.],
        [3., -2., 9., 6.],
        [0., -6., 6., 6.],
        [9., -3., 4., 2.],
    ]);

    let i = from_col([
        [-0.04074, -0.07778, -0.02901, 0.17778],
        [-0.07778, 0.03333, -0.14630, 0.06667],
        [0.14444, 0.36667, -0.10926, -0.26667],
        [-0.22222, -0.33333, 0.12963, 0.33333],
    ]);

    assert!(i.approx_eq(&m.inverse().unwrap()));
}

#[test]
fn test_point_translation() {
    let t = Matrix::translation(vec(5., -3., 2.));
    let p = pt(-3., 4., 5.);
    let r = pt(2., 1., 7.);

    assert!(r.approx_eq(&t.mul_point(&p)));
}

#[test]
fn test_vector_translation() {
    let t = Matrix::translation(vec(5., -3., 2.));
    let v = vec(-3., 4., 5.);

    assert!(v.approx_eq(&t.mul_vector(&v)));
}

#[test]
fn test_point_scaling() {
    let s = Matrix::scaling(vec(-1., 1., 1.));
    let p = pt(2., 3., 4.);
    let r = pt(-2., 3., 4.);

    assert!(r.approx_eq(&s.mul_point(&p)));
}

#[test]
fn test_half_quarter_rotation_x() {
    let p = pt(0., 1., 0.);
    let m = Matrix::rotation_x(new_rt::trig::deg_to_rad(fx(45.)));
    let half_sqrt2 = (2.0_f64).sqrt() / 2.0;
    let r = pt(0., half_sqrt2, half_sqrt2);

    assert!(r.approx_eq(&m.mul_point(&p)));
}

#[test]
fn test_full_quarter_rotation_x() {
    let p = pt(0., 1., 0.);
    let m = Matrix::rotation_x(new_rt::trig::deg_to_rad(fx(90.)));
    let r = pt(0., 0., 1.);

    assert!(r.approx_eq(&m.mul_point(&p)));
}

#[test]
fn test_half_quarter_counter_clockwise_rotation_x() {
    let p = pt(0., 1., 0.);
    let m = Matrix::rotation_x(new_rt::trig::deg_to_rad(fx(45.))).inverse().unwrap();
    let half_sqrt2 = (2.0_f64).sqrt() / 2.0;
    let r = pt(0., half_sqrt2, -half_sqrt2);

    assert!(r.approx_eq(&m.mul_point(&p)));
}

#[test]
fn test_half_quarter_rotation_y() {
    let p = pt(0., 0., 1.);
    let m = Matrix::rotation_y(new_rt::trig::deg_to_rad(fx(45.)));
    let half_sqrt2 = (2.0_f64).sqrt() / 2.0;
    let r = pt(half_sqrt2, 0., half_sqrt2);

    assert!(r.approx_eq(&m.mul_point(&p)));
}

#[test]
fn test_full_quarter_rotation_y() {
    let p = pt(0., 0., 1.);
    let m = Matrix::rotation_y(new_rt::trig::deg_to_rad(fx(90.)));
    let r = pt(1., 0., 0.);

    assert!(r.approx_eq(&m.mul_point(&p)));
}

#[test]
fn test_half_quarter_counter_clockwise_rotation_y() {
    let p = pt(0., 0., 1.);
    let m = Matrix::rotation_y(new_rt::trig::deg_to_rad(fx(45.))).inverse().unwrap();
    let half_sqrt2 = (2.0_f64).sqrt() / 2.0;
    let r = pt(-half_sqrt2, 0., half_sqrt2);

    assert!(r.approx_eq(&m.mul_point(&p)));
}

#[test]
fn test_half_quarter_rotation_z() {
    let p = pt(0., 1., 0.);
    let m = Matrix::rotation_z(new_rt::trig::deg_to_rad(fx(45.)));
    let half_sqrt2 = (2.0_f64).sqrt() / 2.0;
    let r = pt(-half_sqrt2, half_sqrt2, 0.);

    assert!(r.approx_eq(&m.mul_point(&p)));
}

#[test]
fn test_full_quarter_rotation_z() {
    let p = pt(0., 1., 0.);
    let m = Matrix::rotation_z(new_rt::trig::deg_to_rad(fx(90.)));
    let r = pt(-1., 0., 0.);

    assert!(r.approx_eq(&m.mul_point(&p)));
}

#[test]
fn test_half_quarter_counter_clockwise_rotation_z() {
    let p = pt(0., 1., 0.);
    let m = Matrix::rotation_z(new_rt::trig::deg_to_rad(fx(45.))).inverse().unwrap();
    let half_sqrt2 = (2.0_f64).sqrt() / 2.0;
    let r = pt(half_sqrt2, half_sqrt2, 0.);

    assert!(r.approx_eq(&m.mul_point(&p)));
}

#[test]
fn test_shearing_xy_point() {
    let s = Matrix::shearing(fx(1.), fx(0.), fx(0.), fx(0.), fx(0.), fx(0.));
    let p = pt(2., 3., 4.);
    let r = pt(5., 3., 4.);

    assert!(r.approx_eq(&s.mul_point(&p)));
}

#[test]
fn test_shearing_xz_point() {
    let s = Matrix::shearing(fx(0.), fx(1.), fx(0.), fx(0.), fx(0.), fx(0.));
    let p = pt(2., 3., 4.);
    let r = pt(6., 3., 4.);

    assert!(r.approx_eq(&s.mul_point(&p)));
}

#[test]
fn test_shearing_yx_point() {
    let s = Matrix::shearing(fx(0.), fx(0.), fx(1.), fx(0.), fx(0.), fx(0.));
    let p = pt(2., 3., 4.);
    let r = pt(2., 5., 4.);

    assert!(r.approx_eq(&s.mul_point(&p)));
}

#[test]
fn test_shearing_yz_point() {
    let s = Matrix::shearing(fx(0.), fx(0.), fx(0.), fx(1.), fx(0.), fx(0.));
    let p = pt(2., 3., 4.);
    let r = pt(2., 7., 4.);

    assert!(r.approx_eq(&s.mul_point(&p)));
}

#[test]
fn test_shearing_zx_point() {
    let s = Matrix::shearing(fx(0.), fx(0.), fx(0.), fx(0.), fx(1.), fx(0.));
    let p = pt(2., 3., 4.);
    let r = pt(2., 3., 6.);

    assert!(r.approx_eq(&s.mul_point(&p)));
}

#[test]
fn test_shearing_zy_point() {
    let s = Matrix::shearing(fx(0.), fx(0.), fx(0.), fx(0.), fx(0.), fx(1.));
    let p = pt(2., 3., 4.);
    let r = pt(2., 3., 7.);

    assert!(r.approx_eq(&s.mul_point(&p)));
}

#[test]
fn test_view_matrix_1() {
    let from = pt(0., 0., 0.);
    let to = pt(0., 0., -1.);
    let up = vec(0., 1., 0.);

    let view = Matrix::view(from, to, up);

    assert!(view.approx_eq(&Matrix::identity()));
}

#[test]
fn test_view_matrix_2() {
    let from = pt(0., 0., 0.);
    let to = pt(0., 0., 1.);
    let up = vec(0., 1., 0.);

    let view = Matrix::view(from, to, up);

    assert!(view.approx_eq(&Matrix::scaling(vec(-1., 1., -1.))));
}

#[test]
fn test_view_matrix_3() {
    let from = pt(0., 0., 8.);
    let to = pt(0., 0., 0.);
    let up = vec(0., 1., 0.);

    let view = Matrix::view(from, to, up);

    assert!(view.approx_eq(&Matrix::translation(vec(0., 0., -8.))));
}
