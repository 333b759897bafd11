use new_rt::fixed::Fx;
use new_rt::utils::are_almost_equal;
use new_rt::Color;

fn fx(v: f64) -> Fx {
    Fx::new_raw((v * 100000.0).round() as i64)
}

fn col(r: f64, g: f64, b: f64) -> Color {
    Color::new(fx(r), fx(g), fx(b))
}

#[test]
fn test_create_color() {
    let c_a = col(0.9, 0.6, 0.75);
    let c_b = col(0.7, 0.1, 0.25);

    let c_c = c_a.add(&c_b);

    assert!(are_almost_equal(c_c.r, fx(1.6)));
    assert!(are_almost_equal(c_c.g, fx(0.7)));
    assert_eq!(c_c.b, fx(1.0));
}

#[test]
fn test_sub_color_from_color() {
    let c_a = col(0.9, 0.6, 0.75);
    let c_b = col(0.7, 0.1, 0.25);

    let c_c = c_a.sub(&c_b);

    assert!(are_almost_equal(c_c.r, fx(0.2)));
    assert_eq!(c_c.g, fx(0.5));
    assert_eq!(c_c.b, fx(0.5));
}

#[test]
fn test_sub_color_from_zero_color() {
    let c_zero = col(0.0, 0.0, 0.0);
    let c_a = col(1.0, 1.0, 1.0);

    let c_b = c_zero.sub(&c_a);

    assert_eq!(c_b.r, fx(-1.0));
    assert_eq!(c_b.g, fx(-1.0));
    assert_eq!(c_b.b, fx(-1.0));
}

#[test]
fn test_mult_color_by_scalar() {
    let c_a = col(0.2, 0.3, 0.4);

    let c_b = c_a.scale(fx(2.0));

    assert_eq!(c_b.r, fx(0.4));
    assert_eq!(c_b.g, fx(0.6));
    assert_eq!(c_b.b, fx(0.8));
}

#[test]
fn test_mult_colors() {
    let c_a = col(1.0, 0.2, 0.4);
    let c_b = col(0.9, 1.0, 0.1);

    let c_b = c_a.mul(&c_b);

    assert_eq!(c_b.r, fx(0.9));
    assert_eq!(c_b.g, fx(0.2));
    assert!(are_almost_equal(c_b.b, fx(0.04)));
}
