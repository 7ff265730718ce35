use rusty_physics::body::{MotionClass, PlaneCollider, RigidBody};
use rusty_physics::collision::{detect, detect_plane, Contact, PlaneContact};
use rusty_physics::fixed::Fixed;
use rusty_physics::resolver::{
    combine_restitution, correction_for, impulse_for, resolve_pair, resolve_plane, snap_velocity,
    CORRECTION_BIAS, CORRECTION_STRENGTH, REST_EPSILON, TANGENT_RETENTION,
};
use rusty_physics::transform::Transform;
use rusty_physics::vector::Vec3;

fn fx(value: f64) -> Fixed {
    Fixed::from_raw((value * 1_000_000.0).round() as i64)
}

fn v3(x: f64, y: f64, z: f64) -> Vec3 {
    Vec3::new(fx(x), fx(y), fx(z))
}

fn unit_box(x: f64, y: f64, z: f64, motion: MotionClass, restitution: f64) -> RigidBody {
    RigidBody::new(v3(x, y, z), v3(0.5, 0.5, 0.5), motion, fx(restitution))
}

fn moving(mut body: RigidBody, x: f64, y: f64, z: f64) -> RigidBody {
    body.velocity = v3(x, y, z);
    body
}

#[test]
fn constants_of_the_response() {
    assert_eq!(CORRECTION_BIAS, 10_000);
    assert_eq!(CORRECTION_STRENGTH, 800_000);
    assert_eq!(REST_EPSILON, 100);
    assert_eq!(TANGENT_RETENTION, 900_000);
    assert!(CORRECTION_STRENGTH < 1_000_000);
}

#[test]
fn restitution_of_a_pair_is_the_mean() {
    assert_eq!(combine_restitution(fx(0.2), fx(0.6)), fx(0.4));
    assert_eq!(combine_restitution(fx(1.0), fx(0.0)), fx(0.5));
    assert_eq!(combine_restitution(fx(0.5), fx(0.5)), fx(0.5));
}

#[test]
fn impulse_turns_an_approach_into_a_rebound() {
    assert_eq!(impulse_for(fx(-2.0), fx(0.5)), fx(3.0));
    assert_eq!(impulse_for(fx(-1.0), fx(0.0)), fx(1.0));
    assert_eq!(impulse_for(fx(-1.0), fx(1.0)), fx(2.0));
    assert_eq!(impulse_for(fx(0.0), fx(0.5)), fx(0.0));
    assert_eq!(impulse_for(fx(2.0), fx(0.5)), fx(0.0));
}

#[test]
fn correction_is_a_share_of_the_biased_depth() {
    assert_eq!(correction_for(fx(0.1)), fx(0.088));
    assert_eq!(correction_for(fx(1.0)), fx(0.808));
    assert_eq!(correction_for(fx(0.0)), fx(0.008));
}

#[test]
fn small_velocities_are_snapped_to_rest() {
    assert_eq!(snap_velocity(v3(0.005, 0.0, 0.0)), Vec3::zero());
    assert_eq!(snap_velocity(v3(0.005, -0.005, 0.005)), Vec3::zero());
    assert_eq!(snap_velocity(v3(0.01, 0.0, 0.0)), v3(0.01, 0.0, 0.0));
    assert_eq!(snap_velocity(v3(0.0, -3.0, 0.0)), v3(0.0, -3.0, 0.0));
    assert_eq!(snap_velocity(Vec3::zero()), Vec3::zero());
}

#[test]
fn resting_pair_is_parted_along_the_least_axis_only() {
    let mut a = unit_box(0.0, 0.0, 0.0, MotionClass::Dynamic, 0.5);
    let mut b = unit_box(0.9, 0.2, 0.4, MotionClass::Dynamic, 0.5);
    let contact = detect(&a, &b).unwrap();
    assert_eq!(contact.axis, 0);
    resolve_pair(&mut a, &mut b, &contact);
    assert_eq!(a.position, v3(-0.044, 0.0, 0.0));
    assert_eq!(b.position, v3(0.944, 0.2, 0.4));
    assert_eq!(a.velocity, Vec3::zero());
    assert_eq!(b.velocity, Vec3::zero());
}

#[test]
fn resting_pair_is_parted_along_y_when_y_overlaps_least() {
    let mut a = unit_box(0.0, 0.0, 0.0, MotionClass::Dynamic, 0.0);
    let mut b = unit_box(0.3, -0.7, 0.5, MotionClass::Dynamic, 0.0);
    let contact = detect(&a, &b).unwrap();
    assert_eq!(contact, Contact { axis: 1, normal: v3(0.0, -1.0, 0.0), penetration: fx(0.3) });
    resolve_pair(&mut a, &mut b, &contact);
    // (0.3 + 0.01) * 0.8 = 0.248, half each
    assert_eq!(a.position, v3(0.0, 0.124, 0.0));
    assert_eq!(b.position, v3(0.3, -0.824, 0.5));
}

#[test]
fn static_side_absorbs_no_correction() {
    let mut a = unit_box(0.0, 0.0, 0.0, MotionClass::Static, 0.5);
    let mut b = unit_box(0.9, 0.2, 0.4, MotionClass::Dynamic, 0.5);
    let before = a;
    let contact = detect(&a, &b).unwrap();
    resolve_pair(&mut a, &mut b, &contact);
    assert_eq!(a, before);
    assert_eq!(b.position, v3(0.988, 0.2, 0.4));
    let mut c = unit_box(0.0, 0.0, 0.0, MotionClass::Dynamic, 0.5);
    let mut d = unit_box(0.9, 0.2, 0.4, MotionClass::Static, 0.5);
    let contact = detect(&c, &d).unwrap();
    resolve_pair(&mut c, &mut d, &contact);
    assert_eq!(c.position, v3(-0.088, 0.0, 0.0));
    assert_eq!(d.position, v3(0.9, 0.2, 0.4));
}

#[test]
fn two_static_bodies_are_left_alone() {
    let mut a = unit_box(0.0, 0.0, 0.0, MotionClass::Static, 0.5);
    let mut b = unit_box(0.5, 0.0, 0.0, MotionClass::Static, 0.5);
    let (before_a, before_b) = (a, b);
    let contact = detect(&a, &b).unwrap();
    resolve_pair(&mut a, &mut b, &contact);
    assert_eq!(a, before_a);
    assert_eq!(b, before_b);
}

#[test]
fn approaching_pair_exchanges_the_impulse() {
    let mut a = moving(unit_box(0.0, 0.0, 0.0, MotionClass::Dynamic, 0.5), 1.0, 0.0, 0.0);
    let mut b = moving(unit_box(0.9, 0.0, 0.0, MotionClass::Dynamic, 0.5), -1.0, 0.0, 0.0);
    let contact = detect(&a, &b).unwrap();
    resolve_pair(&mut a, &mut b, &contact);
    // relative speed along the normal -2, restitution 0.5: impulse 3
    assert_eq!(a.velocity, v3(-2.0, 0.0, 0.0));
    assert_eq!(b.velocity, v3(2.0, 0.0, 0.0));
}

#[test]
fn separating_pair_exchanges_no_impulse() {
    let mut a = moving(unit_box(0.0, 0.0, 0.0, MotionClass::Dynamic, 0.5), -1.0, 0.25, 0.0);
    let mut b = moving(unit_box(0.9, 0.0, 0.0, MotionClass::Dynamic, 0.5), 1.0, 0.0, -0.5);
    let contact = detect(&a, &b).unwrap();
    resolve_pair(&mut a, &mut b, &contact);
    assert_eq!(a.velocity, v3(-1.0, 0.25, 0.0));
    assert_eq!(b.velocity, v3(1.0, 0.0, -0.5));
    assert_eq!(a.position, v3(-0.044, 0.0, 0.0));
    assert_eq!(b.position, v3(0.944, 0.0, 0.0));
}

#[test]
fn dynamic_body_bounces_off_a_static_one() {
    let mut wall = unit_box(0.0, 0.0, 0.0, MotionClass::Static, 0.2);
    let mut ball = moving(unit_box(0.9, 0.0, 0.0, MotionClass::Dynamic, 0.6), -1.0, 0.5, 0.0);
    let before = wall;
    let contact = detect(&wall, &ball).unwrap();
    resolve_pair(&mut wall, &mut ball, &contact);
    assert_eq!(wall, before);
    // restitution 0.4: the speed along the normal turns from -1 to 0.4
    assert_eq!(ball.velocity, v3(0.4, 0.5, 0.0));
}

#[test]
fn kinematic_body_pushes_but_is_not_pushed() {
    let mut wrecker = moving(unit_box(0.0, 0.0, 0.0, MotionClass::Kinematic, 0.0), 2.0, 0.0, 0.0);
    let mut crate_ = unit_box(0.9, 0.0, 0.0, MotionClass::Dynamic, 0.0);
    let before = wrecker;
    let contact = detect(&wrecker, &crate_).unwrap();
    resolve_pair(&mut wrecker, &mut crate_, &contact);
    assert_eq!(wrecker, before);
    assert_eq!(crate_.velocity, v3(2.0, 0.0, 0.0));
    assert_eq!(crate_.position, v3(0.988, 0.0, 0.0));
}

#[test]
fn residual_velocity_is_snapped_after_a_contact() {
    let mut a = moving(unit_box(0.0, 0.0, 0.0, MotionClass::Dynamic, 0.0), 0.005, 0.0, 0.0);
    let mut b = moving(unit_box(0.9, 0.0, 0.0, MotionClass::Dynamic, 0.0), 0.005, 0.0, 0.0);
    let contact = detect(&a, &b).unwrap();
    resolve_pair(&mut a, &mut b, &contact);
    assert_eq!(a.velocity, Vec3::zero());
    assert_eq!(b.velocity, Vec3::zero());
}

fn ground(restitution: f64) -> PlaneCollider {
    PlaneCollider { normal: v3(0.0, 1.0, 0.0), point: Vec3::zero(), restitution: fx(restitution) }
}

#[test]
fn falling_body_bounces_off_the_ground_and_keeps_part_of_its_slide() {
    let mut body = moving(unit_box(0.0, 0.3, 0.0, MotionClass::Dynamic, 0.5), 1.0, -2.0, 0.0);
    let plane = ground(0.5);
    let contact = detect_plane(&body, &plane, &Transform::identity()).unwrap();
    assert_eq!(contact.penetration, fx(0.2));
    resolve_plane(&mut body, &plane, &contact);
    assert_eq!(body.velocity, v3(0.9, 1.0, 0.0));
    // (0.2 + 0.01) * 0.8
    assert_eq!(body.position, v3(0.0, 0.468, 0.0));
}

#[test]
fn rising_body_is_only_moved_out_of_the_ground() {
    let mut body = moving(unit_box(0.0, 0.3, 0.0, MotionClass::Dynamic, 0.5), 1.0, 2.0, 0.0);
    let plane = ground(0.5);
    let contact = detect_plane(&body, &plane, &Transform::identity()).unwrap();
    resolve_plane(&mut body, &plane, &contact);
    assert_eq!(body.velocity, v3(1.0, 2.0, 0.0));
    assert_eq!(body.position, v3(0.0, 0.468, 0.0));
}

#[test]
fn body_that_barely_moves_comes_to_rest_on_the_ground() {
    let mut body = moving(unit_box(0.0, 0.49, 0.0, MotionClass::Dynamic, 0.0), 0.0, -0.005, 0.0);
    let plane = ground(0.0);
    let contact = detect_plane(&body, &plane, &Transform::identity()).unwrap();
    resolve_plane(&mut body, &plane, &contact);
    assert_eq!(body.velocity, Vec3::zero());
}

#[test]
fn planes_leave_static_and_kinematic_bodies_alone() {
    let plane = ground(0.5);
    let contact = PlaneContact { normal: v3(0.0, 1.0, 0.0), distance: fx(0.3), penetration: fx(0.2) };
    let mut fixed = unit_box(0.0, 0.3, 0.0, MotionClass::Static, 0.5);
    let before = fixed;
    resolve_plane(&mut fixed, &plane, &contact);
    assert_eq!(fixed, before);
    let mut wrecker = moving(unit_box(0.0, 0.3, 0.0, MotionClass::Kinematic, 0.5), 0.0, -2.0, 0.0);
    let before = wrecker;
    resolve_plane(&mut wrecker, &plane, &contact);
    assert_eq!(wrecker, before);
}
