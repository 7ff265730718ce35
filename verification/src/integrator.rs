//! The integrator: advances every body by one fixed time step.

use vstd::prelude::*;
use crate::body::{MotionClass, RigidBody};
use crate::fixed::Fixed;
use crate::vector::Vec3;

verus! {

/// The velocity of a dynamic body after one step: gravity is added, then
/// the whole is damped.
pub open spec fn stepped_velocity(velocity: Vec3, gravity: Vec3, damping: Fixed, dt: Fixed) -> Vec3 {
    velocity.add_spec(gravity.scale_spec(dt)).scale_spec(damping)
}

/// The body after one step. A dynamic body takes up gravity and damping and
/// then moves with its new velocity; a kinematic body moves with the
/// velocity it was given; a static body stays.
pub open spec fn integrated(body: RigidBody, gravity: Vec3, damping: Fixed, dt: Fixed) -> RigidBody {
    match body.motion {
        MotionClass::Static => body,
        MotionClass::Dynamic => {
            let velocity = stepped_velocity(body.velocity, gravity, damping, dt);
            RigidBody { velocity, position: body.position.add_spec(velocity.scale_spec(dt)), ..body }
        },
        MotionClass::Kinematic => RigidBody {
            position: body.position.add_spec(body.velocity.scale_spec(dt)),
            ..body
        },
    }
}

/// Advances one body by one step.
pub fn integrate(body: &mut RigidBody, gravity: Vec3, damping: Fixed, dt: Fixed)
    ensures
        *final(body) == integrated(*old(body), gravity, damping, dt),
        old(body).motion == MotionClass::Static ==> *final(body) == *old(body),
        old(body).motion == MotionClass::Kinematic ==> final(body).velocity == old(body).velocity,
        old(body).wf() ==> final(body).wf(),
{
    match body.motion {
        MotionClass::Static => {},
        MotionClass::Dynamic => {
            let velocity = body.velocity.add(gravity.scale(dt)).scale(damping);
            body.velocity = velocity;
            body.position = body.position.add(velocity.scale(dt));
        },
        MotionClass::Kinematic => {
            body.position = body.position.add(body.velocity.scale(dt));
        },
    }
}

/// Advances every body by one step, each by itself.
pub fn integrate_all(bodies: &mut Vec<RigidBody>, gravity: Vec3, damping: Fixed, dt: Fixed)
    ensures
        final(bodies).len() == old(bodies).len(),
        forall|i: int|
            0 <= i < old(bodies).len() ==> #[trigger] final(bodies)[i] == integrated(
                old(bodies)[i],
                gravity,
                damping,
                dt,
            ),
{
    let n: usize = bodies.len();
    let mut i: usize = 0;
    while i < n
        invariant
            i <= n,
            bodies.len() == n,
            n == old(bodies).len(),
            forall|k: int|
                0 <= k < i ==> #[trigger] bodies[k] == integrated(old(bodies)[k], gravity, damping, dt),
            forall|k: int| i <= k < n ==> #[trigger] bodies[k] == old(bodies)[k],
        decreases n - i,
    {
        let mut body: RigidBody = bodies[i];
        integrate(&mut body, gravity, damping, dt);
        bodies.set(i, body);
        i = i + 1;
    }
}

/// The velocity of a dynamic body after `steps` steps without contact.
pub open spec fn velocity_after(
    velocity: Vec3,
    gravity: Vec3,
    damping: Fixed,
    dt: Fixed,
    steps: nat,
) -> Vec3
    decreases steps,
{
    if steps == 0 {
        velocity
    } else {
        stepped_velocity(
            velocity_after(velocity, gravity, damping, dt, (steps - 1) as nat),
            gravity,
            damping,
            dt,
        )
    }
}

/// The velocity that a dynamic body has after falling freely for `steps` steps.
pub fn free_fall_velocity(velocity: Vec3, gravity: Vec3, damping: Fixed, dt: Fixed, steps: u32) -> (r:
    Vec3)
    ensures
        r == velocity_after(velocity, gravity, damping, dt, steps as nat),
{
    let mut current = velocity;
    let mut done: u32 = 0;
    while done < steps
        invariant
            done <= steps,
            current == velocity_after(velocity, gravity, damping, dt, done as nat),
        decreases steps - done,
    {
        current = current.add(gravity.scale(dt)).scale(damping);
        done = done + 1;
    }
    current
}

} // verus!
