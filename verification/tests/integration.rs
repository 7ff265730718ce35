use rusty_physics::body::{MotionClass, RigidBody};
use rusty_physics::fixed::Fixed;
use rusty_physics::game::fixed_timestep;
use rusty_physics::integrator::{free_fall_velocity, integrate, integrate_all};
use rusty_physics::vector::Vec3;

fn fx(value: f64) -> Fixed {
    Fixed::from_raw((value * 1_000_000.0).round() as i64)
}

fn v3(x: f64, y: f64, z: f64) -> Vec3 {
    Vec3::new(fx(x), fx(y), fx(z))
}

fn body(motion: MotionClass) -> RigidBody {
    RigidBody::new(v3(0.0, 10.0, 0.0), v3(0.5, 0.5, 0.5), motion, fx(0.0))
}

#[test]
fn dynamic_body_takes_gravity_then_damping_then_moves() {
    let mut falling = body(MotionClass::Dynamic);
    integrate(&mut falling, v3(0.0, -10.0, 0.0), fx(0.5), fx(0.5));
    // velocity (0 - 10 * 0.5) * 0.5 = -2.5, position 10 - 2.5 * 0.5
    assert_eq!(falling.velocity, v3(0.0, -2.5, 0.0));
    assert_eq!(falling.position, v3(0.0, 8.75, 0.0));
    integrate(&mut falling, v3(0.0, -10.0, 0.0), fx(0.5), fx(0.5));
    assert_eq!(falling.velocity, v3(0.0, -3.75, 0.0));
    assert_eq!(falling.position, v3(0.0, 6.875, 0.0));
}

#[test]
fn one_step_at_sixty_hertz_rounds_toward_zero() {
    let dt = fixed_timestep(60);
    assert_eq!(dt.raw, 16_666);
    let mut falling = body(MotionClass::Dynamic);
    integrate(&mut falling, v3(0.0, -9.81, 0.0), fx(0.99), dt);
    assert_eq!(falling.velocity, Vec3::new(fx(0.0), Fixed::from_raw(-161_858), fx(0.0)));
    assert_eq!(falling.position, Vec3::new(fx(0.0), Fixed::from_raw(9_997_303), fx(0.0)));
}

#[test]
fn kinematic_body_moves_with_its_velocity_and_feels_no_gravity() {
    let mut wrecker = body(MotionClass::Kinematic);
    wrecker.velocity = v3(1.0, 0.0, -2.0);
    integrate(&mut wrecker, v3(0.0, -10.0, 0.0), fx(0.5), fx(0.5));
    assert_eq!(wrecker.velocity, v3(1.0, 0.0, -2.0));
    assert_eq!(wrecker.position, v3(0.5, 10.0, -1.0));
}

#[test]
fn static_body_stays() {
    let mut ground = body(MotionClass::Static);
    let before = ground;
    integrate(&mut ground, v3(0.0, -10.0, 0.0), fx(0.5), fx(0.5));
    assert_eq!(ground, before);
}

#[test]
fn every_body_is_advanced_by_itself() {
    let mut bodies = vec![body(MotionClass::Static), body(MotionClass::Dynamic), body(MotionClass::Kinematic)];
    bodies[2].velocity = v3(2.0, 0.0, 0.0);
    let expected: Vec<RigidBody> = bodies
        .iter()
        .map(|b| {
            let mut copy = *b;
            integrate(&mut copy, v3(0.0, -10.0, 0.0), fx(0.9), fx(0.1));
            copy
        })
        .collect();
    integrate_all(&mut bodies, v3(0.0, -10.0, 0.0), fx(0.9), fx(0.1));
    assert_eq!(bodies, expected);
    assert_eq!(bodies[1].velocity, v3(0.0, -0.9, 0.0));
    assert_eq!(bodies[2].position, v3(0.2, 10.0, 0.0));
}

#[test]
fn free_fall_without_damping_gains_the_same_every_step() {
    let v = free_fall_velocity(Vec3::zero(), v3(0.0, -9.81, 0.0), fx(1.0), Fixed::from_raw(16_666), 60);
    assert_eq!(v, Vec3::new(fx(0.0), Fixed::from_raw(-163_493 * 60), fx(0.0)));
}

#[test]
fn free_fall_exact_values() {
    let g = v3(0.0, -9.81, 0.0);
    let dt = Fixed::from_raw(16_666);
    assert_eq!(free_fall_velocity(Vec3::zero(), g, fx(0.99), dt, 0), Vec3::zero());
    assert_eq!(free_fall_velocity(Vec3::zero(), g, fx(0.99), dt, 1).y.raw, -161_858);
    assert_eq!(free_fall_velocity(Vec3::zero(), g, fx(0.99), dt, 10).y.raw, -1_547_650);
    assert_eq!(free_fall_velocity(Vec3::zero(), g, fx(0.99), dt, 60).y.raw, -7_329_612);
    assert_eq!(free_fall_velocity(Vec3::zero(), g, fx(0.99), dt, 600).y.raw, -16_146_831);
}

#[test]
fn free_fall_matches_the_damped_geometric_series() {
    let g = v3(0.0, -9.81, 0.0);
    let dt = Fixed::from_raw(16_666);
    let damping = 0.99_f64;
    let gain = -163_493.0 / 1_000_000.0;
    for steps in [1u32, 2, 10, 60, 600, 5000] {
        let v = free_fall_velocity(Vec3::zero(), g, fx(damping), dt, steps);
        let n = steps as f64;
        let closed = gain * damping * (1.0 - damping.powf(n)) / (1.0 - damping);
        let got = v.y.raw as f64 / 1_000_000.0;
        assert!((got - closed).abs() <= n * 1e-6 + 1e-9, "steps {steps}: {got} against {closed}");
        assert_eq!(v.x, fx(0.0));
        assert_eq!(v.z, fx(0.0));
    }
}

#[test]
fn free_fall_follows_the_step_of_the_integrator() {
    let g = v3(0.0, -9.81, 0.0);
    let dt = Fixed::from_raw(16_666);
    let mut falling = body(MotionClass::Dynamic);
    for _ in 0..25 {
        integrate(&mut falling, g, fx(0.99), dt);
    }
    assert_eq!(falling.velocity, free_fall_velocity(Vec3::zero(), g, fx(0.99), dt, 25));
}

#[test]
fn fixed_timestep_is_the_inverse_of_the_rate() {
    assert_eq!(fixed_timestep(30).raw, 33_333);
    assert_eq!(fixed_timestep(120).raw, 8_333);
    assert_eq!(fixed_timestep(1).raw, 1_000_000);
    assert_eq!(fixed_timestep(2_000_000).raw, 0);
}
