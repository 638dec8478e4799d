use ewq::mat::Mat3x4;
use ewq::vec::{Vec2, Vec3, Vec4};
use ewq::Complex;

#[test]
fn complex_product_and_square() {
    let a = Complex::new(1.0, 2.0);
    let b = Complex::new(3.0, 4.0);
    assert_eq!(a.product(b), Complex::new(-5.0, 10.0));
    assert_eq!(a.pow2(), Complex::new(-3.0, 4.0));
    assert_eq!(a.pow2(), a.product(a));
    let mut c = a;
    c.product_assign(b);
    assert_eq!(c, Complex::new(-5.0, 10.0));
}

#[test]
fn complex_reciprocal_and_conjugate() {
    let a = Complex::new(3.0, 4.0);
    assert_eq!(a.conjugate(), Complex::new(3.0, -4.0));
    assert_eq!(a.reciprocal(), Complex::new(0.12, -0.16));
    let z = Complex::<f64>::new(0.0, 0.0).reciprocal();
    assert!(z.real.is_nan() && z.imag.is_nan());
}

#[test]
fn complex_componentwise_arithmetic() {
    let a = Complex::new(1.0, 2.0);
    let b = Complex::new(0.5, -1.0);
    assert_eq!(a.add(b), Complex::new(1.5, 1.0));
    assert_eq!(a.sub(b), Complex::new(0.5, 3.0));
    assert_eq!(a.mul(3.0), Complex::new(3.0, 6.0));
    assert_eq!(a.div(2.0), Complex::new(0.5, 1.0));
    assert_eq!(a.neg(), Complex::new(-1.0, -2.0));
    let mut c = a;
    c.add_assign(b);
    c.sub_assign(a);
    assert_eq!(c, b);
    c.mul_assign(4.0);
    c.div_assign(2.0);
    assert_eq!(c, Complex::new(1.0, -2.0));
}

#[test]
fn complex_and_vector_convert_both_ways() {
    let v = Vec2::new(1.0, -2.0);
    let c = Complex::from(v);
    assert_eq!(c, Complex::new(1.0, -2.0));
    assert_eq!(Vec2::from(c), v);
}

fn sample() -> Mat3x4<f64> {
    Mat3x4::new(
        Vec4::new(1.0, 2.0, 3.0, 4.0),
        Vec4::new(5.0, 6.0, 7.0, 8.0),
        Vec4::new(9.0, 10.0, 11.0, 12.0),
    )
}

#[test]
fn matrix_rows_and_columns() {
    let m = sample();
    assert_eq!(m.row::<0>(), Vec4::new(1.0, 2.0, 3.0, 4.0));
    assert_eq!(m.row::<2>(), Vec4::new(9.0, 10.0, 11.0, 12.0));
    assert_eq!(m.column::<0>(), Vec3::new(1.0, 5.0, 9.0));
    assert_eq!(m.column::<3>(), Vec3::new(4.0, 8.0, 12.0));
    let mut n = m;
    n.set_row::<1>(Vec4::new(0.0, 0.0, 0.0, 0.0));
    assert_eq!(n.row::<1>(), Vec4::new(0.0, 0.0, 0.0, 0.0));
    assert_eq!(n.row::<0>(), m.row::<0>());
    n.set_column::<2>(Vec3::new(-1.0, -2.0, -3.0));
    assert_eq!(n.column::<2>(), Vec3::new(-1.0, -2.0, -3.0));
    assert_eq!(n.row::<0>(), Vec4::new(1.0, 2.0, -1.0, 4.0));
    assert_eq!(n.row::<2>(), Vec4::new(9.0, 10.0, -3.0, 12.0));
}

#[test]
fn matrix_identity_and_row_vector_product() {
    let id = Mat3x4::<f64>::identity();
    assert_eq!(id.row::<0>(), Vec4::new(1.0, 0.0, 0.0, 0.0));
    assert_eq!(id.row::<1>(), Vec4::new(0.0, 1.0, 0.0, 0.0));
    assert_eq!(id.row::<2>(), Vec4::new(0.0, 0.0, 1.0, 0.0));
    let v = Vec4::new(2.0, 3.0, 4.0, 1.0);
    assert_eq!(v.mul_mat(id), Vec3::new(2.0, 3.0, 4.0));
    assert_eq!(Vec4::new(1.0, 0.0, 0.0, 1.0).mul_mat(sample()), Vec3::new(5.0, 13.0, 21.0));
}
