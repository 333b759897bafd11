use new_rt::fixed::Fx;
use new_rt::{Point, Vector};

fn fx(v: f64) -> Fx {
    Fx::new_raw((v * 100000.0).round() as i64)
}

#[test]
fn test_create_point() {
    let p_a = Point::new(fx(1.0), fx(2.0), fx(3.0));

    assert_eq!(p_a.x, fx(1.0));
    assert_eq!(p_a.y, fx(2.0));
    assert_eq!(p_a.z, fx(3.0));
}

#[test]
fn test_add_vector_from_point() {
    let p_a = Point::new(fx(1.0), fx(2.0), fx(3.0));
    let v_b = Vector::new(fx(3.0), fx(4.0), fx(5.0));

    let p_c = p_a.add_vec(&v_b);
    assert_eq!(p_c.x, fx(4.0));
    assert_eq!(p_c.y, fx(6.0));
    assert_eq!(p_c.z, fx(8.0));
}

#[test]
fn test_sub_vector_from_point() {
    let p_a = Point::new(fx(3.0), fx(2.0), fx(1.0));
    let v_b = Vector::new(fx(5.0), fx(6.0), fx(7.0));

    let p_c = p_a.sub_vec(&v_b);
    assert_eq!(p_c.x, fx(-2.0));
    assert_eq!(p_c.y, fx(-4.0));
    assert_eq!(p_c.z, fx(-6.0));
}

#[test]
fn test_sub_point_to_point() {
    let p_a = Point::new(fx(1.0), fx(2.0), fx(3.0));
    let p_b = Point::new(fx(3.0), fx(4.0), fx(5.0));

    let p_c = p_a.sub(&p_b);
    assert_eq!(p_c.x, fx(-2.0));
    assert_eq!(p_c.y, fx(-2.0));
    assert_eq!(p_c.z, fx(-2.0));

    let p_d = Point::new(fx(3.0), fx(2.0), fx(1.0));
    let p_e = Point::new(fx(5.0), fx(6.0), fx(7.0));

    let p_f = p_d.sub(&p_e);
    assert_eq!(p_f.x, fx(-2.0));
    assert_eq!(p_f.y, fx(-4.0));
    assert_eq!(p_f.z, fx(-6.0));
}
