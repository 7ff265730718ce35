use rusty_physics::body::{MotionClass, RigidBody};
use rusty_physics::fixed::Fixed;
use rusty_physics::game::{scroll_control, CursorDistance, MAX_CURSOR_DISTANCE, MIN_CURSOR_DISTANCE};
use rusty_physics::integrator::integrate;
use rusty_physics::interactions::{
    apply_force, blast_impulse, draw_impulse_cursor, draw_wrecker_cursor, label_anchor,
    label_position, set_impulse_cursor_visibility, set_wrecker_cursor_visibility, CursorRay,
    ImpulseSettings, InteractionMode, InteractionModeType, Visibility, LABEL_LIFT, LABEL_PARKED,
};
use rusty_physics::vector::{Vec2, Vec3};

fn fx(value: f64) -> Fixed {
    Fixed::from_raw((value * 1_000_000.0).round() as i64)
}

fn v3(x: f64, y: f64, z: f64) -> Vec3 {
    Vec3::new(fx(x), fx(y), fx(z))
}

fn settings(radius: f64, force: f64) -> ImpulseSettings {
    ImpulseSettings { blast_radius: fx(radius), max_force: fx(force) }
}

fn body_at(x: f64, y: f64, z: f64, motion: MotionClass) -> RigidBody {
    RigidBody::new(v3(x, y, z), v3(0.5, 0.5, 0.5), motion, fx(0.0))
}

#[test]
fn default_blast() {
    let blast = ImpulseSettings::default();
    assert_eq!(blast.blast_radius, fx(50.0));
    assert_eq!(blast.max_force, fx(100.0));
}

#[test]
fn impulse_at_the_radius_is_none() {
    assert_eq!(blast_impulse(Vec3::zero(), v3(50.0, 0.0, 0.0), settings(50.0, 100.0)), None);
    assert_eq!(blast_impulse(Vec3::zero(), v3(0.0, 0.0, -50.0), settings(50.0, 100.0)), None);
    assert_eq!(blast_impulse(Vec3::zero(), v3(30.0, 40.0, 0.0), settings(50.0, 100.0)), None);
    assert_eq!(blast_impulse(Vec3::zero(), v3(60.0, 0.0, 0.0), settings(50.0, 100.0)), None);
}

#[test]
fn impulse_just_inside_the_radius_is_all_but_zero() {
    let got = blast_impulse(Vec3::zero(), Vec3::new(Fixed::from_raw(49_999_999), fx(0.0), fx(0.0)), settings(50.0, 100.0));
    // falloff 1 - 0.999999 = 0.000001, times a force of 100
    assert_eq!(got, Some(Vec3::new(Fixed::from_raw(100), fx(0.0), fx(0.0))));
}

#[test]
fn impulse_at_the_centre_is_guarded() {
    assert_eq!(blast_impulse(v3(1.0, 2.0, 3.0), v3(1.0, 2.0, 3.0), settings(50.0, 100.0)), None);
    assert_eq!(blast_impulse(Vec3::zero(), Vec3::zero(), ImpulseSettings::default()), None);
}

#[test]
fn impulse_at_half_the_radius_is_half_the_force() {
    assert_eq!(
        blast_impulse(Vec3::zero(), v3(25.0, 0.0, 0.0), settings(50.0, 100.0)),
        Some(v3(50.0, 0.0, 0.0))
    );
    assert_eq!(
        blast_impulse(Vec3::zero(), v3(0.0, -25.0, 0.0), settings(50.0, 100.0)),
        Some(v3(0.0, -50.0, 0.0))
    );
    // Off the axes: direction (0.6, 0.8, 0), half of 100 along it.
    assert_eq!(
        blast_impulse(v3(1.0, 1.0, 1.0), v3(4.0, 5.0, 1.0), settings(10.0, 100.0)),
        Some(v3(30.0, 40.0, 0.0))
    );
}

#[test]
fn impulse_falls_off_linearly() {
    // distance 5 of 50: falloff 0.9
    assert_eq!(
        blast_impulse(Vec3::zero(), v3(3.0, 4.0, 0.0), settings(50.0, 100.0)),
        Some(v3(54.0, 72.0, 0.0))
    );
    assert_eq!(
        blast_impulse(Vec3::zero(), v3(10.0, 10.0, 10.0), settings(50.0, 100.0)),
        Some(Vec3::new(
            Fixed::from_raw(37_735_018),
            Fixed::from_raw(37_735_018),
            Fixed::from_raw(37_735_018)
        ))
    );
}

#[test]
fn blast_without_reach_moves_nothing() {
    assert_eq!(blast_impulse(Vec3::zero(), v3(1.0, 0.0, 0.0), settings(0.0, 100.0)), None);
    assert_eq!(blast_impulse(Vec3::zero(), v3(1.0, 0.0, 0.0), settings(-5.0, 100.0)), None);
}

fn forward_ray() -> CursorRay {
    CursorRay { origin: v3(0.0, 1.0, 0.0), direction: v3(0.0, 0.0, -1.0) }
}

#[test]
fn ray_point_lies_along_the_ray() {
    assert_eq!(forward_ray().get_point(fx(10.0)), v3(0.0, 1.0, -10.0));
    assert_eq!(forward_ray().get_point(fx(0.0)), v3(0.0, 1.0, 0.0));
    let slanted = CursorRay { origin: v3(1.0, 2.0, 3.0), direction: v3(0.6, 0.0, 0.8) };
    assert_eq!(slanted.get_point(fx(5.0)), v3(4.0, 2.0, 7.0));
}

#[test]
fn click_blasts_dynamic_bodies_in_reach_once() {
    let distance = CursorDistance(fx(10.0));
    let mut bodies = vec![
        body_at(0.0, 1.0, -15.0, MotionClass::Dynamic),
        body_at(0.0, 1.0, -10.0, MotionClass::Dynamic),
        body_at(3.0, 5.0, -10.0, MotionClass::Static),
        body_at(3.0, 5.0, -10.0, MotionClass::Kinematic),
        body_at(0.0, 1.0, 80.0, MotionClass::Dynamic),
        body_at(3.0, 5.0, -10.0, MotionClass::Dynamic),
    ];
    let before = bodies.clone();
    apply_force(&distance, &mut bodies, &settings(10.0, 100.0), Some(forward_ray()), true, false);
    // five behind the point, half the radius away
    assert_eq!(bodies[0].velocity, v3(0.0, 0.0, -50.0));
    // at the very point: skipped
    assert_eq!(bodies[1], before[1]);
    assert_eq!(bodies[2], before[2]);
    assert_eq!(bodies[3], before[3]);
    // out of reach
    assert_eq!(bodies[4], before[4]);
    assert_eq!(bodies[5].velocity, v3(30.0, 40.0, 0.0));
    for (after, earlier) in bodies.iter().zip(before.iter()) {
        assert_eq!(after.position, earlier.position);
        assert_eq!(after.motion, earlier.motion);
    }
}

#[test]
fn impulse_adds_to_the_velocity_there_is() {
    let distance = CursorDistance(fx(10.0));
    let mut bodies = vec![body_at(0.0, 1.0, -15.0, MotionClass::Dynamic)];
    bodies[0].velocity = v3(1.0, 2.0, 3.0);
    apply_force(&distance, &mut bodies, &settings(10.0, 100.0), Some(forward_ray()), true, false);
    assert_eq!(bodies[0].velocity, v3(1.0, 2.0, -47.0));
}

#[test]
fn no_blast_without_click_ray_or_free_pointer() {
    let distance = CursorDistance(fx(10.0));
    let mut bodies = vec![body_at(0.0, 1.0, -15.0, MotionClass::Dynamic)];
    let before = bodies.clone();
    apply_force(&distance, &mut bodies, &settings(10.0, 100.0), Some(forward_ray()), false, false);
    assert_eq!(bodies, before);
    apply_force(&distance, &mut bodies, &settings(10.0, 100.0), Some(forward_ray()), true, true);
    assert_eq!(bodies, before);
    apply_force(&distance, &mut bodies, &settings(10.0, 100.0), None, true, false);
    assert_eq!(bodies, before);
}

#[test]
fn wrecker_reaches_a_still_target_in_one_step() {
    let distance = CursorDistance(fx(10.0));
    let dt = fx(0.5);
    let mut wrecker = body_at(0.0, 0.0, 0.0, MotionClass::Kinematic);
    let ray = CursorRay { origin: v3(1.0, 2.0, 13.0), direction: v3(0.0, 0.0, -1.0) };
    let shown = draw_wrecker_cursor(&distance, &mut wrecker, Some(ray), dt);
    assert_eq!(shown, Some(Vec3::zero()));
    assert_eq!(wrecker.velocity, v3(2.0, 4.0, 6.0));
    integrate(&mut wrecker, v3(0.0, -9.81, 0.0), fx(0.99), dt);
    assert_eq!(wrecker.position, v3(1.0, 2.0, 3.0));
    // Once aligned, no velocity is left.
    let shown = draw_wrecker_cursor(&distance, &mut wrecker, Some(ray), dt);
    assert_eq!(shown, Some(v3(1.0, 2.0, 3.0)));
    assert_eq!(wrecker.velocity, Vec3::zero());
    integrate(&mut wrecker, v3(0.0, -9.81, 0.0), fx(0.99), dt);
    assert_eq!(wrecker.position, v3(1.0, 2.0, 3.0));
}

#[test]
fn wrecker_at_sixty_hertz_comes_within_a_millionth() {
    let distance = CursorDistance(fx(10.0));
    let dt = Fixed::from_raw(16_666);
    let mut wrecker = body_at(0.0, 0.0, 0.0, MotionClass::Kinematic);
    let ray = CursorRay { origin: v3(1.0, 2.0, 13.0), direction: v3(0.0, 0.0, -1.0) };
    draw_wrecker_cursor(&distance, &mut wrecker, Some(ray), dt);
    assert_eq!(
        wrecker.velocity,
        Vec3::new(Fixed::from_raw(60_002_400), Fixed::from_raw(120_004_800), Fixed::from_raw(180_007_200))
    );
    integrate(&mut wrecker, Vec3::zero(), fx(1.0), dt);
    assert_eq!(
        wrecker.position,
        Vec3::new(Fixed::from_raw(999_999), Fixed::from_raw(1_999_999), Fixed::from_raw(2_999_999))
    );
}

#[test]
fn wrecker_tracks_from_where_it_is() {
    let distance = CursorDistance(fx(1.0));
    let dt = fx(0.02);
    let mut wrecker = body_at(0.5, 0.5, 0.5, MotionClass::Kinematic);
    let ray = CursorRay { origin: v3(1.0, -2.0, 2.0), direction: v3(0.0, 0.0, 1.0) };
    draw_wrecker_cursor(&distance, &mut wrecker, Some(ray), dt);
    assert_eq!(wrecker.velocity, v3(25.0, -125.0, 125.0));
    integrate(&mut wrecker, Vec3::zero(), fx(1.0), dt);
    assert_eq!(wrecker.position, v3(1.0, -2.0, 3.0));
}

#[test]
fn wrecker_stops_without_a_cursor() {
    let distance = CursorDistance(fx(10.0));
    let mut wrecker = body_at(1.0, 1.0, 1.0, MotionClass::Kinematic);
    wrecker.velocity = v3(5.0, 5.0, 5.0);
    let shown = draw_wrecker_cursor(&distance, &mut wrecker, None, fx(0.02));
    assert_eq!(shown, None);
    assert_eq!(wrecker.velocity, Vec3::zero());
    assert_eq!(wrecker.position, v3(1.0, 1.0, 1.0));
}

#[test]
fn impulse_cursor_follows_the_ray() {
    let distance = CursorDistance(fx(10.0));
    let mut cursor = v3(9.0, 9.0, 9.0);
    let shown = draw_impulse_cursor(&distance, &mut cursor, Some(forward_ray()));
    assert_eq!(shown, Some(v3(0.0, 1.0, -10.0)));
    assert_eq!(cursor, v3(0.0, 1.0, -10.0));
    let shown = draw_impulse_cursor(&distance, &mut cursor, None);
    assert_eq!(shown, None);
    assert_eq!(cursor, v3(0.0, 1.0, -10.0));
}

#[test]
fn labels_are_parked_off_screen_when_not_projectable() {
    assert_eq!(LABEL_PARKED, -100_000_000);
    assert_eq!(label_position(None), Vec2 { x: fx(-100.0), y: fx(-100.0) });
    assert_eq!(
        label_position(Some(Vec2 { x: fx(320.0), y: fx(240.5) })),
        Vec2 { x: fx(320.0), y: fx(240.5) }
    );
}

#[test]
fn labels_are_anchored_half_a_unit_above() {
    assert_eq!(LABEL_LIFT, 500_000);
    assert_eq!(label_anchor(v3(1.0, 2.0, 3.0)), v3(1.0, 2.5, 3.0));
}

#[test]
fn scroll_moves_the_cursor_by_half_the_wheel() {
    let mut distance = CursorDistance(fx(10.0));
    scroll_control(&vec![fx(1.0)], &mut distance);
    assert_eq!(distance, CursorDistance(fx(9.5)));
    scroll_control(&vec![fx(-3.0), fx(1.0)], &mut distance);
    assert_eq!(distance, CursorDistance(fx(10.5)));
}

#[test]
fn scroll_is_clamped_between_one_and_fifty() {
    assert_eq!(MIN_CURSOR_DISTANCE, 1_000_000);
    assert_eq!(MAX_CURSOR_DISTANCE, 50_000_000);
    let mut distance = CursorDistance(fx(10.0));
    scroll_control(&vec![fx(100.0)], &mut distance);
    assert_eq!(distance, CursorDistance(fx(1.0)));
    scroll_control(&vec![fx(-1000.0)], &mut distance);
    assert_eq!(distance, CursorDistance(fx(50.0)));
    scroll_control(&vec![fx(-1.0)], &mut distance);
    assert_eq!(distance, CursorDistance(fx(50.0)));
}

#[test]
fn no_scroll_leaves_the_distance_alone() {
    let mut distance = CursorDistance(fx(75.0));
    scroll_control(&Vec::new(), &mut distance);
    assert_eq!(distance, CursorDistance(fx(75.0)));
    scroll_control(&vec![fx(2.0), fx(-2.0)], &mut distance);
    assert_eq!(distance, CursorDistance(fx(75.0)));
    scroll_control(&vec![Fixed::from_raw(2)], &mut distance);
    assert_eq!(distance, CursorDistance(fx(50.0)));
}

#[test]
fn modes_run_their_own_systems() {
    let click = InteractionModeType::Click.systems();
    assert!(click.camera_zoom && !click.cursor_scroll && !click.blast && !click.tracking);
    assert_eq!(click.impulse_cursor, Visibility::Hidden);
    assert_eq!(click.wrecker_cursor, Visibility::Hidden);
    let impulse = InteractionModeType::Impulse.systems();
    assert!(!impulse.camera_zoom && impulse.cursor_scroll && impulse.blast && !impulse.tracking);
    assert_eq!(impulse.impulse_cursor, Visibility::Visible);
    assert_eq!(impulse.wrecker_cursor, Visibility::Hidden);
    let wrecker = InteractionModeType::Wrecker.systems();
    assert!(!wrecker.camera_zoom && wrecker.cursor_scroll && !wrecker.blast && wrecker.tracking);
    assert_eq!(wrecker.impulse_cursor, Visibility::Hidden);
    assert_eq!(wrecker.wrecker_cursor, Visibility::Visible);
    assert_eq!(InteractionMode(InteractionModeType::Click).0, InteractionModeType::Click);
}

#[test]
fn cursors_are_shown_and_hidden_together() {
    let mut parts = vec![Visibility::Hidden, Visibility::Visible, Visibility::Hidden];
    set_impulse_cursor_visibility::<true>(&mut parts);
    assert_eq!(parts, vec![Visibility::Visible; 3]);
    set_impulse_cursor_visibility::<false>(&mut parts);
    assert_eq!(parts, vec![Visibility::Hidden; 3]);
    set_wrecker_cursor_visibility::<true>(&mut parts);
    assert_eq!(parts, vec![Visibility::Visible; 3]);
    set_wrecker_cursor_visibility::<false>(&mut parts);
    assert_eq!(parts, vec![Visibility::Hidden; 3]);
    let mut none: Vec<Visibility> = Vec::new();
    set_wrecker_cursor_visibility::<true>(&mut none);
    assert!(none.is_empty());
}
