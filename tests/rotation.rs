use ewq::ang::Ang3;
use ewq::vec::Vec3;
use ewq::{Quat, QuatT};
use std::f64::consts::{FRAC_PI_2, FRAC_PI_4, PI};

const EPS: f64 = 1e-9;

fn near(a: Vec3<f64>, b: Vec3<f64>) -> bool {
    (a.x - b.x).abs() < EPS && (a.y - b.y).abs() < EPS && (a.z - b.z).abs() < EPS
}

fn samples() -> Vec<Vec3<f64>> {
    vec![
        Vec3::new(1.0, 0.0, 0.0),
        Vec3::new(0.3, -2.0, 5.0),
        Vec3::new(-7.0, 0.5, 0.25),
        Vec3::new(0.0, 0.0, 0.0),
    ]
}

fn rotations() -> Vec<Quat<f64>> {
    vec![
        Quat::new_axis_rotation(Vec3::new(0.0, 0.0, 1.0), FRAC_PI_2),
        Quat::new_axis_rotation(Vec3::new(1.0, 2.0, 3.0), 0.7),
        Quat::new_axis_rotation(Vec3::new(-4.0, 0.0, 1.0), -2.5),
        Quat::identity(),
    ]
}

#[test]
fn rotation_preserves_magnitude() {
    for q in rotations() {
        for v in samples() {
            assert!((q.rotate(v).magnitude() - v.magnitude()).abs() < EPS);
        }
    }
}

#[test]
fn conjugate_rotation_round_trips() {
    for q in rotations() {
        for v in samples() {
            assert!(near(q.rotate(q.conjugate().rotate(v)), v));
            assert!(near(q.conjugate().rotate(q.rotate(v)), v));
        }
    }
}

#[test]
fn same_axis_rotations_add_angles() {
    let axis = Vec3::new(1.0, -1.0, 2.0);
    for (t1, t2) in [(0.3, 0.4), (FRAC_PI_2, FRAC_PI_4), (-1.0, 2.5)] {
        let both = Quat::new_axis_rotation(axis, t1).combine(Quat::new_axis_rotation(axis, t2));
        let once = Quat::new_axis_rotation(axis, t1 + t2);
        for v in samples() {
            assert!(near(both.rotate(v), once.rotate(v)));
        }
        let (a, angle) = both.into_axis_angle();
        assert!(near(a, axis.normalized()) || near(a, axis.normalized().neg()));
        assert!((angle - (t1 + t2).abs()).abs() < EPS);
    }
}

#[test]
fn quarter_turn_about_z_maps_x_to_y() {
    let q = Quat::new_axis_rotation(Vec3::new(0.0, 0.0, 3.0), FRAC_PI_2);
    assert!((q.v.z - FRAC_PI_4.sin()).abs() < EPS);
    assert!((q.w - FRAC_PI_4.cos()).abs() < EPS);
    assert_eq!(q.v.x, 0.0);
    assert!(near(q.rotate(Vec3::new(1.0, 0.0, 0.0)), Vec3::new(0.0, 1.0, 0.0)));
}

#[test]
fn combine_applies_self_first() {
    let yaw = Quat::new_axis_rotation(Vec3::new(0.0, 0.0, 1.0), FRAC_PI_2);
    let roll = Quat::new_axis_rotation(Vec3::new(1.0, 0.0, 0.0), FRAC_PI_2);
    let x = Vec3::new(1.0, 0.0, 0.0);
    // yaw takes x to y, then roll takes y to z.
    assert!(near(yaw.combine(roll).rotate(x), Vec3::new(0.0, 0.0, 1.0)));
    assert!(near(roll.rotate(yaw.rotate(x)), Vec3::new(0.0, 0.0, 1.0)));
    assert_eq!(yaw.combine(roll), roll.product(yaw));
}

#[test]
fn hamilton_product_of_basis_units() {
    let i = Quat::from_parts(1.0, 0.0, 0.0, 0.0);
    let j = Quat::from_parts(0.0, 1.0, 0.0, 0.0);
    let k = Quat::from_parts(0.0, 0.0, 1.0, 0.0);
    assert_eq!(i.product(j), k);
    assert_eq!(j.product(i), Quat::from_parts(0.0, 0.0, -1.0, 0.0));
    assert_eq!(i.product(i), Quat::from_parts(0.0, 0.0, 0.0, -1.0));
    let a = Quat::from_parts(1.0, 2.0, 3.0, 4.0);
    let b = Quat::from_parts(5.0, 6.0, 7.0, 8.0);
    assert_eq!(a.product(b), Quat::from_parts(24.0, 48.0, 48.0, -6.0));
}

#[test]
fn conjugate_norm_and_reciprocal() {
    let a = Quat::from_parts(1.0, 2.0, 3.0, 4.0);
    assert_eq!(a.conjugate(), Quat::from_parts(-1.0, -2.0, -3.0, 4.0));
    assert_eq!(a.sqrt_norm(), 30.0);
    assert_eq!(Quat::from_parts(0.0, 3.0, 0.0, 4.0).norm(), 5.0);
    assert_eq!(
        Quat::from_parts(0.0, 3.0, 0.0, 4.0).normalize(),
        Quat::from_parts(0.0, 0.6, 0.0, 0.8)
    );
    assert_eq!(
        Quat::from_parts(0.0, 0.0, 2.0, 0.0).reciprocal(),
        Quat::from_parts(0.0, 0.0, -0.5, 0.0)
    );
    let p = a.product(a.reciprocal());
    assert!(near(p.v, Vec3::new(0.0, 0.0, 0.0)));
    assert!((p.w - 1.0).abs() < EPS);
    let z = Quat::<f64>::zero().reciprocal();
    assert!(z.w.is_nan());
}

#[test]
fn quaternion_constructors() {
    let v = Vec3::new(1.0, 2.0, 3.0);
    assert_eq!(Quat::new(v, 4.0), Quat::from_parts(1.0, 2.0, 3.0, 4.0));
    assert_eq!(Quat::new_vector(v), Quat::from_parts(1.0, 2.0, 3.0, 0.0));
    assert_eq!(Quat::<f64>::zero(), Quat::from_parts(0.0, 0.0, 0.0, 0.0));
    assert_eq!(Quat::<f64>::identity(), Quat::from_parts(0.0, 0.0, 0.0, 1.0));
}

#[test]
fn quaternion_componentwise_arithmetic() {
    let a = Quat::from_parts(1.0, 2.0, 3.0, 4.0);
    let b = Quat::from_parts(0.5, 0.5, 0.5, 0.5);
    assert_eq!(a.add(b), Quat::from_parts(1.5, 2.5, 3.5, 4.5));
    assert_eq!(a.sub(b), Quat::from_parts(0.5, 1.5, 2.5, 3.5));
    assert_eq!(a.mul(2.0), Quat::from_parts(2.0, 4.0, 6.0, 8.0));
    assert_eq!(a.div(2.0), Quat::from_parts(0.5, 1.0, 1.5, 2.0));
    let mut c = a;
    c.add_assign(b);
    c.sub_assign(a);
    assert_eq!(c, b);
    c.mul_assign(4.0);
    c.div_assign(8.0);
    assert_eq!(c, Quat::from_parts(0.25, 0.25, 0.25, 0.25));
}

#[test]
fn destination_rotation_moves_from_onto_to() {
    let from = Vec3::new(1.0, 0.0, 0.0);
    let to = Vec3::new(0.0, 2.0, 0.0);
    let q = Quat::new_dst_rotation(from, to);
    assert!(near(q.rotate(from), Vec3::new(0.0, 1.0, 0.0)));
    let from2 = Vec3::new(1.0, 1.0, 0.0);
    let to2 = Vec3::new(0.0, 0.0, 5.0);
    let q2 = Quat::new_dst_rotation(from2, to2);
    assert!(near(q2.rotate(from2).normalized(), to2.normalized()));
}

#[test]
fn axis_angle_round_trip() {
    let q = Quat::new_axis_rotation(Vec3::new(0.0, 0.0, 2.0), 1.0);
    let (axis, angle) = q.into_axis_angle();
    assert!(near(axis, Vec3::new(0.0, 0.0, 1.0)));
    assert!((angle - 1.0).abs() < EPS);
    let (_, zero_angle) = Quat::<f64>::identity().into_axis_angle();
    assert_eq!(zero_angle, 0.0);
    let (_, half) = Quat::new_axis_rotation(Vec3::new(0.0, 1.0, 0.0), PI).into_axis_angle();
    assert!((half - PI).abs() < EPS);
}

#[test]
fn euler_angles_apply_yaw_pitch_roll_in_order() {
    let yaw_only = Ang3::new(FRAC_PI_2, 0.0, 0.0).into_rotation();
    assert!(near(yaw_only.rotate(Vec3::new(1.0, 0.0, 0.0)), Vec3::new(0.0, 1.0, 0.0)));
    let roll_only = Ang3::new(0.0, 0.0, FRAC_PI_2).into_rotation();
    assert!(near(roll_only.rotate(Vec3::new(0.0, 1.0, 0.0)), Vec3::new(0.0, 0.0, 1.0)));
    let all = Ang3::new(0.3, -0.4, 1.1);
    let expected = Quat::new_axis_rotation(Vec3::yaw(), 0.3)
        .combine(Quat::new_axis_rotation(Vec3::pitch(), -0.4))
        .combine(Quat::new_axis_rotation(Vec3::roll(), 1.1));
    assert_eq!(all.into_rotation(), expected);
    assert_eq!(Ang3::from(Vec3::new(1.0, 2.0, 3.0)), Ang3::new(1.0, 2.0, 3.0));
}

#[test]
fn rigid_transform_orders() {
    let t = QuatT::new(Quat::identity(), Vec3::new(1.0, 2.0, 3.0));
    assert_eq!(t.apply(Vec3::new(1.0, 0.0, 0.0)), Vec3::new(2.0, 2.0, 3.0));
    let q = Quat::new_axis_rotation(Vec3::new(0.0, 0.0, 1.0), FRAC_PI_2);
    let r = QuatT::new(q, Vec3::new(1.0, 0.0, 0.0));
    assert!(near(r.apply(Vec3::new(1.0, 0.0, 0.0)), Vec3::new(1.0, 1.0, 0.0)));
    assert!(near(r.apply_reverse(Vec3::new(1.0, 0.0, 0.0)), Vec3::new(0.0, 2.0, 0.0)));
    let id = QuatT::<f64>::identity();
    assert_eq!(id.apply(Vec3::new(4.0, 5.0, 6.0)), Vec3::new(4.0, 5.0, 6.0));
    assert_eq!(id.t, Vec3::new(0.0, 0.0, 0.0));
}
