use rusty_physics::body::{MotionClass, PlaneCollider, RigidBody};
use rusty_physics::collision::detect_all;
use rusty_physics::fixed::Fixed;
use rusty_physics::integrator::integrate_all;
use rusty_physics::interactions::{wrecker_ball, ExampleLabel};
use rusty_physics::transform::Transform;
use rusty_physics::vector::Vec3;
use rusty_physics::world::{
    resolve_all, settle, settle_all, step_bodies, PlacedPlane, Request, World,
};

fn fx(value: f64) -> Fixed {
    Fixed::from_raw((value * 1_000_000.0).round() as i64)
}

fn v3(x: f64, y: f64, z: f64) -> Vec3 {
    Vec3::new(fx(x), fx(y), fx(z))
}

fn unit_box(x: f64, y: f64, z: f64, motion: MotionClass) -> RigidBody {
    RigidBody::new(v3(x, y, z), v3(0.5, 0.5, 0.5), motion, fx(0.0))
}

fn ground() -> PlaneCollider {
    PlaneCollider { normal: v3(0.0, 1.0, 0.0), point: Vec3::zero(), restitution: fx(0.0) }
}

fn world_with_ground() -> World {
    let mut world = World::new(v3(0.0, -10.0, 0.0), fx(1.0));
    world.add_plane(ground(), Transform::identity());
    world
}

#[test]
fn new_world_is_empty() {
    let world = World::new(v3(0.0, -9.81, 0.0), fx(0.99));
    assert!(world.bodies.is_empty());
    assert!(world.handles.is_empty());
    assert!(world.planes.is_empty());
    assert!(world.pending.is_empty());
    assert_eq!(world.next_handle, 0);
    assert_eq!(world.gravity, v3(0.0, -9.81, 0.0));
    assert_eq!(world.damping, fx(0.99));
}

#[test]
fn spawn_gives_rising_handles() {
    let mut world = world_with_ground();
    let first = world.spawn(unit_box(0.0, 5.0, 0.0, MotionClass::Dynamic));
    let second = world.spawn(unit_box(3.0, 5.0, 0.0, MotionClass::Static));
    assert_eq!(first, Some(0));
    assert_eq!(second, Some(1));
    assert_eq!(world.handles, vec![0, 1]);
    assert_eq!(world.bodies.len(), 2);
    assert_eq!(world.body(1), Some(unit_box(3.0, 5.0, 0.0, MotionClass::Static)));
    assert_eq!(world.find(0), Some(0));
    assert_eq!(world.find(7), None);
    assert_eq!(world.body(7), None);
}

#[test]
fn spawn_fails_when_handles_run_out() {
    let mut world = world_with_ground();
    world.next_handle = u64::MAX;
    assert_eq!(world.spawn(unit_box(0.0, 5.0, 0.0, MotionClass::Dynamic)), None);
    assert!(world.bodies.is_empty());
    assert_eq!(world.next_handle, u64::MAX);
}

#[test]
fn falling_box_lands_on_the_ground() {
    let mut world = world_with_ground();
    let handle = world.spawn(unit_box(0.0, 0.4, 0.0, MotionClass::Dynamic)).unwrap();
    world.step(fx(0.1));
    let body = world.body(handle).unwrap();
    // integrated to y = 0.3 with velocity -1, then thrown back by the
    // ground without rebound and moved out by (0.2 + 0.01) * 0.8
    assert_eq!(body.velocity, Vec3::zero());
    assert_eq!(body.position, v3(0.0, 0.468, 0.0));
}

#[test]
fn free_box_just_falls() {
    let mut world = world_with_ground();
    let handle = world.spawn(unit_box(0.0, 10.0, 0.0, MotionClass::Dynamic)).unwrap();
    world.step(fx(0.1));
    world.step(fx(0.1));
    let body = world.body(handle).unwrap();
    assert_eq!(body.velocity, v3(0.0, -2.0, 0.0));
    assert_eq!(body.position, v3(0.0, 9.7, 0.0));
}

#[test]
fn step_is_integration_then_contacts_then_planes() {
    let bodies = vec![
        unit_box(0.0, 0.45, 0.0, MotionClass::Dynamic),
        unit_box(0.8, 0.45, 0.1, MotionClass::Dynamic),
        unit_box(0.4, 1.2, 0.0, MotionClass::Static),
        wrecker_ball(),
    ];
    let planes = vec![PlacedPlane { plane: ground(), placement: Transform::identity() }];
    let gravity = v3(0.0, -9.81, 0.0);
    let dt = Fixed::from_raw(16_666);

    let mut by_hand = bodies.clone();
    integrate_all(&mut by_hand, gravity, fx(0.99), dt);
    let found = detect_all(&by_hand);
    assert!(!found.is_empty());
    resolve_all(&mut by_hand, &found);
    settle_all(&mut by_hand, &planes);

    let mut stepped = bodies.clone();
    step_bodies(&mut stepped, &planes, gravity, fx(0.99), dt);
    assert_eq!(stepped, by_hand);

    let mut world = World::new(gravity, fx(0.99));
    world.add_plane(ground(), Transform::identity());
    for body in &bodies {
        world.spawn(*body);
    }
    world.step(dt);
    assert_eq!(world.bodies, by_hand);
}

#[test]
fn static_bodies_never_move_and_kinematic_ones_keep_their_velocity() {
    let mut world = world_with_ground();
    let wall = world.spawn(unit_box(0.0, 0.2, 0.0, MotionClass::Static)).unwrap();
    let mut pusher = unit_box(0.6, 0.2, 0.0, MotionClass::Kinematic);
    pusher.velocity = v3(-1.0, 0.0, 0.0);
    let pusher = world.spawn(pusher).unwrap();
    let ball = world.spawn(unit_box(0.3, 0.9, 0.0, MotionClass::Dynamic)).unwrap();
    for _ in 0..20 {
        world.step(fx(0.02));
    }
    assert_eq!(world.body(wall), Some(unit_box(0.0, 0.2, 0.0, MotionClass::Static)));
    let pusher = world.body(pusher).unwrap();
    assert_eq!(pusher.velocity, v3(-1.0, 0.0, 0.0));
    assert_eq!(pusher.position, v3(0.2, 0.2, 0.0));
    assert_eq!(world.body(ball).unwrap().motion, MotionClass::Dynamic);
}

#[test]
fn contacts_are_resolved_once_each_in_order() {
    let mut bodies = vec![
        unit_box(0.0, 0.0, 0.0, MotionClass::Dynamic),
        unit_box(0.9, 0.0, 0.0, MotionClass::Dynamic),
        unit_box(1.8, 0.0, 0.0, MotionClass::Dynamic),
    ];
    let found = detect_all(&bodies);
    assert_eq!(found.len(), 2);
    resolve_all(&mut bodies, &found);
    // first contact parts 0 and 1 by 0.044 each, the second 1 and 2
    assert_eq!(bodies[0].position, v3(-0.044, 0.0, 0.0));
    assert_eq!(bodies[1].position, v3(0.9, 0.0, 0.0));
    assert_eq!(bodies[2].position, v3(1.844, 0.0, 0.0));
}

#[test]
fn a_contact_that_names_no_body_changes_nothing() {
    let mut bodies = vec![
        unit_box(0.0, 0.0, 0.0, MotionClass::Dynamic),
        unit_box(0.9, 0.0, 0.0, MotionClass::Dynamic),
    ];
    let mut found = detect_all(&bodies);
    found[0].second = 5;
    let before = bodies.clone();
    resolve_all(&mut bodies, &found);
    assert_eq!(bodies, before);
}

#[test]
fn a_body_is_held_against_each_plane_in_turn() {
    let floor = PlacedPlane { plane: ground(), placement: Transform::identity() };
    let wall = PlacedPlane {
        plane: PlaneCollider { normal: v3(1.0, 0.0, 0.0), point: Vec3::zero(), restitution: fx(0.0) },
        placement: Transform::identity(),
    };
    let mut body = unit_box(0.3, 0.3, 0.0, MotionClass::Dynamic);
    settle(&mut body, &vec![floor, wall]);
    assert_eq!(body.position, v3(0.468, 0.468, 0.0));
    let mut clear = unit_box(3.0, 3.0, 0.0, MotionClass::Dynamic);
    settle(&mut clear, &vec![floor, wall]);
    assert_eq!(clear, unit_box(3.0, 3.0, 0.0, MotionClass::Dynamic));
}

#[test]
fn despawn_waits_for_the_next_step() {
    let mut world = world_with_ground();
    let first = world.spawn(unit_box(0.0, 5.0, 0.0, MotionClass::Dynamic)).unwrap();
    let second = world.spawn(unit_box(3.0, 5.0, 0.0, MotionClass::Dynamic)).unwrap();
    let third = world.spawn(unit_box(6.0, 5.0, 0.0, MotionClass::Dynamic)).unwrap();
    world.request_despawn(second);
    assert_eq!(world.pending, vec![Request::Despawn(second)]);
    assert_eq!(world.bodies.len(), 3);
    assert!(world.body(second).is_some());
    world.step(fx(0.1));
    assert!(world.pending.is_empty());
    assert_eq!(world.handles, vec![first, third]);
    assert_eq!(world.body(second), None);
    // The other handles still lead to their bodies.
    assert_eq!(world.body(first).unwrap().position, v3(0.0, 4.9, 0.0));
    assert_eq!(world.body(third).unwrap().position, v3(6.0, 4.9, 0.0));
}

#[test]
fn a_handle_is_never_given_twice() {
    let mut world = world_with_ground();
    let first = world.spawn(unit_box(0.0, 5.0, 0.0, MotionClass::Dynamic)).unwrap();
    world.request_despawn(first);
    world.apply_requests();
    let second = world.spawn(unit_box(0.0, 5.0, 0.0, MotionClass::Dynamic)).unwrap();
    assert_ne!(first, second);
    assert_eq!(world.body(first), None);
    assert!(world.body(second).is_some());
}

#[test]
fn requests_are_carried_out_oldest_first() {
    let mut world = world_with_ground();
    let first = world.spawn(unit_box(0.0, 5.0, 0.0, MotionClass::Dynamic)).unwrap();
    world.spawn(unit_box(3.0, 5.0, 0.0, MotionClass::Dynamic));
    world.request_despawn(99);
    world.request_despawn(first);
    world.request_despawn(first);
    world.apply_requests();
    assert_eq!(world.handles, vec![1]);
    world.request_reset();
    world.request_despawn(1);
    world.apply_requests();
    assert!(world.bodies.is_empty());
    assert!(world.handles.is_empty());
    assert_eq!(world.next_handle, 2);
    assert_eq!(world.planes.len(), 1);
}

#[test]
fn labels_go_with_their_bodies() {
    let mut world = world_with_ground();
    let first = world.spawn(unit_box(0.0, 5.0, 0.0, MotionClass::Dynamic)).unwrap();
    let second = world.spawn(wrecker_ball()).unwrap();
    let mut labels = vec![
        ExampleLabel { entity: second },
        ExampleLabel { entity: first },
        ExampleLabel { entity: second },
    ];
    assert_eq!(world.label_target(&labels[0]), Some(wrecker_ball()));
    world.retain_live_labels(&mut labels);
    assert_eq!(labels.len(), 3);
    world.request_despawn(second);
    world.step(fx(0.02));
    assert_eq!(world.label_target(&labels[0]), None);
    world.retain_live_labels(&mut labels);
    assert_eq!(labels, vec![ExampleLabel { entity: first }]);
}
