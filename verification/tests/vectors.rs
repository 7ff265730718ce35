use rusty_physics::fixed::Fixed;
use rusty_physics::transform::{Quat, Transform};
use rusty_physics::vector::{magnitude, scaled_quotient, Vec3};

fn fx(value: f64) -> Fixed {
    Fixed::from_raw((value * 1_000_000.0).round() as i64)
}

fn v3(x: f64, y: f64, z: f64) -> Vec3 {
    Vec3::new(fx(x), fx(y), fx(z))
}

#[test]
fn componentwise_arithmetic() {
    assert_eq!(v3(1.0, 2.0, 3.0).add(v3(0.5, -2.0, 1.0)), v3(1.5, 0.0, 4.0));
    assert_eq!(v3(1.0, 2.0, 3.0).sub(v3(0.5, -2.0, 1.0)), v3(0.5, 4.0, 2.0));
    assert_eq!(v3(1.0, -2.0, 3.0).neg(), v3(-1.0, 2.0, -3.0));
    assert_eq!(v3(1.0, -2.0, 3.0).scale(fx(2.5)), v3(2.5, -5.0, 7.5));
    assert_eq!(v3(1.0, -2.0, 3.0).shrink(fx(4.0)), v3(0.25, -0.5, 0.75));
    assert_eq!(v3(1.0, -2.0, 3.0).half(), v3(0.5, -1.0, 1.5));
}

#[test]
fn zero_and_components() {
    assert_eq!(Vec3::zero(), v3(0.0, 0.0, 0.0));
    assert!(Vec3::zero().is_zero());
    assert!(!v3(0.0, 0.000001, 0.0).is_zero());
    let v = v3(1.0, 2.0, 3.0);
    assert_eq!(v.component(0), fx(1.0));
    assert_eq!(v.component(1), fx(2.0));
    assert_eq!(v.component(2), fx(3.0));
}

#[test]
fn axis_units() {
    assert_eq!(Vec3::axis_unit(0, true), v3(1.0, 0.0, 0.0));
    assert_eq!(Vec3::axis_unit(1, true), v3(0.0, 1.0, 0.0));
    assert_eq!(Vec3::axis_unit(2, true), v3(0.0, 0.0, 1.0));
    assert_eq!(Vec3::axis_unit(0, false), v3(-1.0, 0.0, 0.0));
    assert_eq!(Vec3::axis_unit(2, false), v3(0.0, 0.0, -1.0));
}

#[test]
fn dot_and_cross() {
    assert_eq!(v3(1.0, 2.0, 3.0).dot(v3(4.0, -5.0, 6.0)), fx(12.0));
    assert_eq!(v3(1.0, 0.0, 0.0).cross(v3(0.0, 1.0, 0.0)), v3(0.0, 0.0, 1.0));
    assert_eq!(v3(0.0, 1.0, 0.0).cross(v3(0.0, 0.0, 1.0)), v3(1.0, 0.0, 0.0));
    assert_eq!(v3(1.0, 2.0, 3.0).cross(v3(4.0, 5.0, 6.0)), v3(-3.0, 6.0, -3.0));
    assert_eq!(v3(3.0, 4.0, 0.0).length_squared(), fx(25.0));
}

#[test]
fn dot_sums_before_it_clamps() {
    let big = Fixed::from_raw(i64::MAX);
    let a = Vec3::new(big, big, Fixed::zero());
    let b = Vec3::new(Fixed::from_int(2), Fixed::from_int(-2), Fixed::zero());
    assert_eq!(a.dot(b), Fixed::zero());
}

#[test]
fn length_of_a_three_four_five_triangle() {
    assert_eq!(v3(3.0, 4.0, 0.0).length(), fx(5.0));
    assert_eq!(v3(0.0, -3.0, 4.0).length(), fx(5.0));
    assert_eq!(v3(1.0, 1.0, 1.0).length(), Fixed::from_raw(1_732_050));
    assert_eq!(Vec3::zero().length(), Fixed::zero());
    assert_eq!(v3(3.0, 4.0, 0.0).length_wide(), 5_000_000);
}

#[test]
fn length_of_the_largest_vector_is_clamped() {
    let least = Fixed::from_raw(i64::MIN);
    let v = Vec3::new(least, least, least);
    assert_eq!(v.length(), Fixed::from_raw(i64::MAX));
    assert_eq!(v.length_wide(), 15_975_348_984_942_515_101);
}

#[test]
fn normalize_gives_unit_length() {
    assert_eq!(v3(3.0, 4.0, 0.0).normalize(), Some(v3(0.6, 0.8, 0.0)));
    assert_eq!(v3(0.0, 0.0, -7.0).normalize(), Some(v3(0.0, 0.0, -1.0)));
    assert_eq!(
        v3(1.0, 1.0, 1.0).normalize(),
        Some(Vec3::new(Fixed::from_raw(577_350), Fixed::from_raw(577_350), Fixed::from_raw(577_350)))
    );
}

#[test]
fn normalize_of_zero_is_none() {
    assert_eq!(Vec3::zero().normalize(), None);
}

#[test]
fn normalize_of_the_smallest_vector() {
    let tiny = Vec3::new(Fixed::from_raw(1), Fixed::zero(), Fixed::zero());
    assert_eq!(tiny.normalize(), Some(v3(1.0, 0.0, 0.0)));
}

#[test]
fn magnitude_and_quotient_helpers() {
    assert_eq!(magnitude(-5), 5);
    assert_eq!(magnitude(5), 5);
    assert_eq!(magnitude(i64::MIN), 1u128 << 63);
    assert_eq!(scaled_quotient(3_000_000, 5_000_000), 600_000);
    assert_eq!(scaled_quotient(-1, 3), -333_333);
}

#[test]
fn identity_rotation_changes_nothing() {
    let v = v3(1.25, -2.5, 3.75);
    assert_eq!(Quat::identity().rotate(v), v);
}

#[test]
fn half_turn_about_y_flips_x_and_z() {
    let q = Quat { x: fx(0.0), y: fx(1.0), z: fx(0.0), w: fx(0.0) };
    assert_eq!(q.rotate(v3(1.0, 2.0, 3.0)), v3(-1.0, 2.0, -3.0));
}

#[test]
fn transform_scales_rotates_then_moves_points() {
    let t = Transform {
        translation: v3(10.0, 0.0, 0.0),
        rotation: Quat { x: fx(0.0), y: fx(1.0), z: fx(0.0), w: fx(0.0) },
        scale: v3(2.0, 3.0, 4.0),
    };
    assert_eq!(t.point(v3(1.0, 1.0, 1.0)), v3(8.0, 3.0, -4.0));
    assert_eq!(t.direction(v3(1.0, 1.0, 1.0)), v3(-1.0, 1.0, -1.0));
}

#[test]
fn identity_transform_changes_nothing() {
    let p = v3(1.0, -2.0, 3.0);
    assert_eq!(Transform::identity().point(p), p);
    assert_eq!(Transform::identity().direction(p), p);
    assert_eq!(Transform::from_translation(v3(1.0, 1.0, 1.0)).point(p), v3(2.0, -1.0, 4.0));
    assert_eq!(Transform::from_translation(v3(1.0, 1.0, 1.0)).direction(p), p);
}
