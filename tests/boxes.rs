use ewq::aabb::{Aabb, Aabb3};
use ewq::vec::{Vec2, Vec3};

#[test]
fn unit_box_scenario() {
    let b = Aabb3::new(Vec3::new(1.0f32, 1.0, 1.0), Vec3::new(2.0, 2.0, 2.0));
    assert!(b.is_right());
    assert_eq!(b.volume(), 1.0);
    assert_eq!(b.center(), Vec3::new(1.5, 1.5, 1.5));
    let corners = b.corners();
    let expected = [
        Vec3::new(1.0, 1.0, 1.0),
        Vec3::new(2.0, 1.0, 1.0),
        Vec3::new(1.0, 2.0, 1.0),
        Vec3::new(2.0, 2.0, 1.0),
        Vec3::new(1.0, 1.0, 2.0),
        Vec3::new(2.0, 1.0, 2.0),
        Vec3::new(1.0, 2.0, 2.0),
        Vec3::new(2.0, 2.0, 2.0),
    ];
    assert_eq!(corners, expected);
}

#[test]
fn box_volume_and_center_on_uneven_box() {
    let b = Aabb3::new(Vec3::new(0.0, -1.0, 2.0), Vec3::new(2.0, 3.0, 5.0));
    assert_eq!(b.volume(), 24.0);
    assert_eq!(b.center(), Vec3::new(1.0, 1.0, 3.5));
}

#[test]
fn inverted_twice_is_identity() {
    let b = Aabb3::new(Vec3::new(1.0, 2.0, 3.0), Vec3::new(4.0, 5.0, 6.0));
    assert_eq!(b.inverted().inverted(), b);
    let g = Aabb::<f64, Vec2<f64>>::new(Vec2::new(0.0, 1.0), Vec2::new(2.0, 3.0));
    assert_eq!(g.inverted().inverted(), g);
}

#[test]
fn inverted_box_is_not_right() {
    let b = Aabb3::new(Vec3::new(1.0, 1.0, 1.0), Vec3::new(2.0, 2.0, 2.0));
    let i = b.inverted();
    assert_eq!(i.min, b.max);
    assert_eq!(i.max, b.min);
    assert!(!i.is_right());
    let mut m = b;
    m.invert();
    assert_eq!(m, i);
    let g = Aabb::<f64, Vec3<f64>>::new(Vec3::new(0.0, 0.0, 0.0), Vec3::new(1.0, 1.0, 1.0));
    assert!(g.is_right());
    assert!(!g.inverted().is_right());
    let mut h = Aabb::<f64, Vec3<f64>>::new(Vec3::new(0.0, 0.0, 0.0), Vec3::new(1.0, 1.0, 1.0));
    h.invert();
    assert_eq!(h.min, Vec3::new(1.0, 1.0, 1.0));
    assert_eq!(h.max, Vec3::new(0.0, 0.0, 0.0));
}

#[test]
fn is_right_checks_every_axis() {
    let g = Aabb::<f64, Vec2<f64>>::new(Vec2::new(0.0, 5.0), Vec2::new(1.0, 4.0));
    assert!(!g.is_right());
    let flat = Aabb::<f64, Vec2<f64>>::new(Vec2::new(1.0, 1.0), Vec2::new(1.0, 1.0));
    assert!(flat.is_right());
    let b = Aabb3::new(Vec3::new(0.0, 0.0, 3.0), Vec3::new(1.0, 1.0, 2.0));
    assert!(!b.is_right());
}

#[test]
fn is_inside_compares_per_axis_with_bounds_included() {
    let g = Aabb::<f64, Vec3<f64>>::new(Vec3::new(0.0, 0.0, 0.0), Vec3::new(1.0, 2.0, 3.0));
    assert!(g.is_inside(Vec3::new(0.5, 1.0, 1.5)));
    assert!(g.is_inside(Vec3::new(0.0, 2.0, 3.0)));
    assert!(!g.is_inside(Vec3::new(0.5, 2.5, 1.0)));
    assert!(!g.is_inside(Vec3::new(-0.1, 1.0, 1.0)));
    let b = Aabb3::new(Vec3::new(0.0, 0.0, 0.0), Vec3::new(1.0, 2.0, 3.0));
    assert!(b.is_inside(Vec3::new(0.5, 1.0, 1.5)));
    assert!(b.is_inside(Vec3::new(1.0, 0.0, 3.0)));
    assert!(!b.is_inside(Vec3::new(0.5, 1.0, 3.5)));
    assert!(b.is_outside(Vec3::new(0.5, -1.0, 1.0)));
    assert!(!b.is_outside(Vec3::new(0.5, 1.0, 1.0)));
}
