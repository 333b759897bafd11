use new_rt::fixed::Fx;
use new_rt::utils::are_almost_equal;
use new_rt::Vector;

fn fx(v: f64) -> Fx {
    Fx::new_raw((v * 100000.0).round() as i64)
}

fn vec(x: f64, y: f64, z: f64) -> Vector {
    Vector::new(fx(x), fx(y), fx(z))
}

#[test]
fn test_create_vector() {
    let v_a = vec(1.0, 2.0, 3.0);
    let v_b = vec(3.0, 4.0, 5.0);

    let v_c = v_a.add(&v_b);

    assert_eq!(v_c.x, fx(4.0));
    assert_eq!(v_c.y, fx(6.0));
    assert_eq!(v_c.z, fx(8.0));
}

#[test]
fn test_sub_vector_from_vector() {
    let v_a = vec(3.0, 2.0, 1.0);
    let v_b = vec(5.0, 6.0, 7.0);

    let v_c = v_a.sub(&v_b);

    assert_eq!(v_c.x, fx(-2.0));
    assert_eq!(v_c.y, fx(-4.0));
    assert_eq!(v_c.z, fx(-6.0));
}

#[test]
fn test_sub_vector_from_zero_vector() {
    let v_zero = vec(0.0, 0.0, 0.0);
    let v_a = vec(1.0, -2.0, 3.0);

    let v_b = v_zero.sub(&v_a);

    assert_eq!(v_b.x, fx(-1.0));
    assert_eq!(v_b.y, fx(2.0));
    assert_eq!(v_b.z, fx(-3.0));
}

#[test]
fn test_magnitude_of_vector_1() {
    let v_a = vec(1.0, 0.0, 0.0);
    assert_eq!(v_a.magnitude(), fx(1.0));
}

#[test]
fn test_magnitude_of_vector_2() {
    let v_a = vec(0.0, 1.0, 0.0);
    assert_eq!(v_a.magnitude(), fx(1.0));
}

#[test]
fn test_magnitude_of_vector_3() {
    let v_a = vec(0.0, 0.0, 1.0);
    assert_eq!(v_a.magnitude(), fx(1.0));
}

#[test]
fn test_magnitude_of_vector_4() {
    let v_a = vec(1.0, 2.0, 3.0);
    let val = 14.0_f64;
    assert!(are_almost_equal(v_a.magnitude(), fx(val.sqrt())));
}

#[test]
fn test_magnitude_of_vector_5() {
    let v_a = vec(-1.0, -2.0, -3.0);
    let val = 14.0_f64;
    assert!(are_almost_equal(v_a.magnitude(), fx(val.sqrt())));
}

#[test]
fn test_normalize_vector_1() {
    let v_a = vec(4.0, 0.0, 0.0);
    let norm_va = v_a.normalize();
    let val = vec(1.0, 0.0, 0.0);
    assert_eq!(norm_va.x, val.x);
    assert_eq!(norm_va.y, val.y);
    assert_eq!(norm_va.z, val.z);
}

#[test]
fn test_normalize_vector_2() {
    let v_a = vec(1.0, 2.0, 3.0);
    let norm_va = v_a.normalize();
    let val = vec(0.26726, 0.53452, 0.80178);
    assert!(are_almost_equal(norm_va.x, val.x));
    assert!(are_almost_equal(norm_va.y, val.y));
    assert!(are_almost_equal(norm_va.z, val.z));
}

#[test]
fn test_dot_product_vector() {
    let v_a = vec(1.0, 2.0, 3.0);
    let v_b = vec(2.0, 3.0, 4.0);
    assert_eq!(v_a.dot(&v_b), fx(20.0));
}

#[test]
fn test_cross_product_vector_1() {
    let v_a = vec(1.0, 2.0, 3.0);
    let v_b = vec(2.0, 3.0, 4.0);

    let result = v_a.cross(&v_b);
    assert_eq!(result.x, fx(-1.0));
    assert_eq!(result.y, fx(2.0));
    assert_eq!(result.z, fx(-1.0));
}

#[test]
fn test_cross_product_vector_2() {
    let v_a = vec(1.0, 2.0, 3.0);
    let v_b = vec(2.0, 3.0, 4.0);

    let result = v_b.cross(&v_a);
    assert_eq!(result.x, fx(1.0));
    assert_eq!(result.y, fx(-2.0));
    assert_eq!(result.z, fx(1.0));
}

#[test]
fn test_reflect_vector() {
    let v_a = vec(1.0, -1.0, 0.0);
    let v_b = vec(0.0, 1.0, 0.0);

    let result = v_a.reflect(&v_b);
    assert_eq!(result.x, fx(1.0));
    assert_eq!(result.y, fx(1.0));
    assert_eq!(result.z, fx(0.0));
}
